//! The data model: secret specifications, generated material, and the
//! outcome types of the apply protocol.
use vstd::prelude::*;

verus! {

/// The closed set of generation strategies.
#[derive(Clone, Copy, Debug, PartialEq, Eq, Structural)]
pub enum SecretKind {
    RsaKeypair,
    RandomString,
}

/// Declares one secret to provision: a generation strategy and the name the
/// stored object will carry inside its namespace.
#[derive(Debug)]
pub struct SecretSpec {
    pub kind: SecretKind,
    pub name: String,
}

impl SecretSpec {
    /// A specification is accepted only with a non-empty name.
    pub open spec fn valid(&self) -> bool {
        self.name@.len() > 0
    }

    pub fn is_valid(&self) -> (r: bool)
        ensures
            r == self.valid(),
    {
        !self.name.as_str().is_empty()
    }
}

impl Clone for SecretSpec {
    fn clone(&self) -> (r: Self)
        ensures
            r == *self,
    {
        SecretSpec { kind: self.kind, name: self.name.clone() }
    }
}

/// The view of generated material: an ordered sequence of
/// (field key, binary value) pairs.
pub type MaterialView = Seq<(Seq<char>, Seq<u8>)>;

/// An ordered mapping from field key to raw binary value, produced once per
/// specification instance.
pub struct GeneratedMaterial {
    pub entries: Vec<(String, Vec<u8>)>,
}

impl View for GeneratedMaterial {
    type V = MaterialView;

    open spec fn view(&self) -> MaterialView {
        Seq::new(self.entries@.len(), |i: int| (self.entries@[i].0@, self.entries@[i].1@))
    }
}

/// The number of random bytes drawn for a `RandomString` secret.
pub const RANDOM_BYTE_COUNT: usize = 32;

/// The fixed length of the printable value of a `RandomString` secret:
/// two hex digits for each random byte.
pub const RANDOM_STRING_LENGTH: usize = 64;

/// What well-formed material looks like for each strategy: which field keys
/// are present, in which order, and the shape of each value.
pub open spec fn material_wf(kind: SecretKind, m: MaterialView) -> bool {
    match kind {
        SecretKind::RsaKeypair => {
            &&& m.len() == 2
            &&& m[0].0 == "private_key"@
            &&& m[1].0 == "public_key"@
            &&& m[0].1.len() > 0
            &&& m[1].1.len() > 0
        },
        SecretKind::RandomString => {
            &&& m.len() == 1
            &&& m[0].0 == "value"@
            &&& m[0].1.len() == RANDOM_STRING_LENGTH
            &&& forall|j: int|
                0 <= j < m[0].1.len() ==> crate::codec::is_hex_digit(#[trigger] m[0].1[j])
        },
    }
}

/// A failure inside a generation strategy: the entropy source or an encoding
/// step failed for this one specification.
#[derive(Debug)]
pub struct GenerationError {
    pub detail: String,
}

impl GenerationError {
    /// A human-readable account of the failure.
    pub fn describe(&self) -> (r: String)
        ensures
            r@ == self.detail@,
    {
        self.detail.clone()
    }
}

/// What the store reports for one create-if-absent request.
#[derive(Debug)]
pub enum CreateResult {
    /// The object was created; it did not exist before.
    Created,
    /// An object with this name already exists; nothing was written.
    AlreadyExists,
    /// Any other store failure (authorization, transport, quota).
    Failed(String),
}

/// The terminal outcome of applying one specification.
#[derive(Debug)]
pub enum ApplyOutcome {
    /// The secret was generated and durably written.
    Applied,
    /// An object with this name already existed; nothing was written.
    AlreadyPresent,
    /// The specification carried an empty name and was rejected.
    InvalidName,
    /// The generation strategy failed; nothing was written.
    GenerationFailed(GenerationError),
    /// The store reported a failure other than a name conflict.
    StoreFailed(String),
}

/// How a store report is read by the applier: a conflict is terminal success,
/// everything else keeps its meaning.
pub open spec fn outcome_of_create_spec(r: CreateResult) -> ApplyOutcome {
    match r {
        CreateResult::Created => ApplyOutcome::Applied,
        CreateResult::AlreadyExists => ApplyOutcome::AlreadyPresent,
        CreateResult::Failed(detail) => ApplyOutcome::StoreFailed(detail),
    }
}

/// Reads one store report as a terminal outcome. A name conflict is the
/// expected steady-state answer on every run after the first and is mapped to
/// `AlreadyPresent`, never surfaced as a failure.
pub fn outcome_of_create(r: CreateResult) -> (o: ApplyOutcome)
    ensures
        o == outcome_of_create_spec(r),
{
    match r {
        CreateResult::Created => ApplyOutcome::Applied,
        CreateResult::AlreadyExists => ApplyOutcome::AlreadyPresent,
        CreateResult::Failed(detail) => ApplyOutcome::StoreFailed(detail),
    }
}

} // verus!
