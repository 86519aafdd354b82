//! The idempotent applier and the batch orchestrator.
//!
//! One specification travels Generator -> store under the no-clobber policy:
//! an existing value is never overwritten, a name conflict is terminal
//! success, and generation is lazy, so no entropy is spent on a secret that
//! already exists. A batch processes its specifications in order, isolating
//! each item's outcome.
use crate::generate::generate;
use crate::secrets::{outcome_of_create, ApplyOutcome, SecretSpec, material_wf};
use crate::store::{lemma_store_has_monotone, store_has, SecretStore};
use vstd::prelude::*;

verus! {

/// Whether a stored object is one that a batch over these specifications and
/// this namespace could have written: the well-formed secret of one of the
/// specifications, under the batch's namespace.
pub open spec fn from_batch(
    e: crate::store::StoredSecretView,
    namespace: Seq<char>,
    specifications: Seq<SecretSpec>,
) -> bool {
    exists|j: int|
        0 <= j < specifications.len() && e.namespace == namespace && e.name == (
        #[trigger] specifications[j]).name@ && material_wf(specifications[j].kind, e.material)
}

/// Everything one apply call promises of the store it was handed and the
/// store it leaves behind: nothing already stored is ever touched, an absent
/// name gains at most one well-formed object, a present name is reported
/// `AlreadyPresent` and changes nothing, and the only failures are a rejected
/// empty name or a failed generation.
pub open spec fn apply_transition(
    pre: Seq<crate::store::StoredSecretView>,
    post: Seq<crate::store::StoredSecretView>,
    namespace: Seq<char>,
    specification: SecretSpec,
    r: ApplyOutcome,
) -> bool {
    &&& pre.len() <= post.len()
    &&& forall|i: int| 0 <= i < pre.len() ==> post[i] == pre[i]
    &&& (!(r is Applied) ==> post == pre)
    &&& (r is InvalidName <==> !specification.valid())
    &&& (r is AlreadyPresent <==> specification.valid() && store_has(
        pre,
        namespace,
        specification.name@,
    ))
    &&& !(r is StoreFailed)
    &&& (r is Applied ==> {
        &&& !store_has(pre, namespace, specification.name@)
        &&& post.len() == pre.len() + 1
        &&& post.last().namespace == namespace
        &&& post.last().name == specification.name@
        &&& material_wf(specification.kind, post.last().material)
        &&& store_has(post, namespace, specification.name@)
    })
    &&& (specification.valid() && !store_has(pre, namespace, specification.name@) ==> (
    r is Applied || r is GenerationFailed))
}

/// Law (idempotence): once one apply of a specification has reached terminal
/// success, every further apply of the same specification against the store
/// it left reports `AlreadyPresent`, never an error, and leaves every stored
/// value exactly as it was.
pub proof fn lemma_apply_idempotent(
    s0: Seq<crate::store::StoredSecretView>,
    s1: Seq<crate::store::StoredSecretView>,
    s2: Seq<crate::store::StoredSecretView>,
    namespace: Seq<char>,
    specification: SecretSpec,
    first: ApplyOutcome,
    second: ApplyOutcome,
)
    requires
        apply_transition(s0, s1, namespace, specification, first),
        first is Applied || first is AlreadyPresent,
        apply_transition(s1, s2, namespace, specification, second),
    ensures
        second is AlreadyPresent,
        s2 == s1,
{
    assert(specification.valid());
    if first is AlreadyPresent {
        lemma_store_has_monotone(s0, s1, namespace, specification.name@);
    }
    assert(store_has(s1, namespace, specification.name@));
}

/// Whether a batch run could have passed through these intermediate store
/// states: it starts at `pre`, ends at `post`, and step `k` relates state `k`
/// to state `k + 1` by one apply of specification `k` with outcome `k`.
pub open spec fn batch_trace(
    states: Seq<Seq<crate::store::StoredSecretView>>,
    pre: Seq<crate::store::StoredSecretView>,
    post: Seq<crate::store::StoredSecretView>,
    namespace: Seq<char>,
    specifications: Seq<SecretSpec>,
    outcomes: Seq<(SecretSpec, ApplyOutcome)>,
) -> bool {
    &&& states.len() == specifications.len() + 1
    &&& states.first() == pre
    &&& states.last() == post
    &&& forall|k: int|
        0 <= k < specifications.len() ==> apply_transition(
            states[k],
            states[k + 1],
            namespace,
            #[trigger] specifications[k],
            outcomes[k].1,
        )
}

/// Applies one specification to the store: ensure the object at
/// (namespace, specification.name) exists, generating material only when it
/// is absent. The promise is `apply_transition` between the store as given
/// and as left; with `lemma_apply_idempotent` it yields idempotence: repeated
/// calls after the first success change nothing and report `AlreadyPresent`.
pub fn apply(store: &mut SecretStore, namespace: &String, specification: &SecretSpec) -> (r:
    ApplyOutcome)
    requires
        old(store).wf(),
    ensures
        final(store).wf(),
        apply_transition(old(store)@, final(store)@, namespace@, *specification, r),
{
    if !specification.is_valid() {
        return ApplyOutcome::InvalidName;
    }
    if store.contains(namespace, &specification.name) {
        return ApplyOutcome::AlreadyPresent;
    }
    let material = match generate(specification.kind) {
        Ok(material) => material,
        Err(e) => {
            return ApplyOutcome::GenerationFailed(e);
        },
    };
    let result = store.create_if_absent(namespace, &specification.name, material);
    let outcome = outcome_of_create(result);
    assert(store@.last().namespace == namespace@);
    assert(store_has(store@, namespace@, specification.name@)) by {
        assert(store@[store@.len() - 1].name == specification.name@);
    }
    outcome
}

/// The batch orchestrator: processes the specifications in input order
/// against one namespace and pairs each with its own terminal outcome.
///
/// Partial failure isolation: the result has exactly one entry per
/// specification, in order; a failing item is reported in its own entry and
/// never stops the rest; nothing already stored is ever touched, and every
/// object the batch adds is the well-formed secret of one of its own
/// specifications. The whole run is one `batch_trace`: item `k`'s outcome
/// relates the store before and after it by `apply_transition`.
pub fn run(store: &mut SecretStore, namespace: &String, specifications: &Vec<SecretSpec>) -> (r:
    Vec<(SecretSpec, ApplyOutcome)>)
    requires
        old(store).wf(),
    ensures
        final(store).wf(),
        r@.len() == specifications@.len(),
        forall|i: int| 0 <= i < r@.len() ==> (#[trigger] r@[i]).0 == specifications@[i],
        forall|i: int|
            0 <= i < r@.len() ==> ((#[trigger] r@[i]).1 is InvalidName
                <==> !specifications@[i].valid()),
        forall|i: int| 0 <= i < r@.len() ==> !((#[trigger] r@[i]).1 is StoreFailed),
        old(store)@.len() <= final(store)@.len(),
        forall|i: int| 0 <= i < old(store)@.len() ==> final(store)@[i] == old(store)@[i],
        forall|i: int|
            old(store)@.len() <= i < final(store)@.len() ==> from_batch(
                #[trigger] final(store)@[i],
                namespace@,
                specifications@,
            ),
        forall|i: int|
            0 <= i < r@.len() && (#[trigger] r@[i]).1 is Applied ==> store_has(
                final(store)@,
                namespace@,
                specifications@[i].name@,
            ),
        exists|states: Seq<Seq<crate::store::StoredSecretView>>|
            batch_trace(states, old(store)@, final(store)@, namespace@, specifications@, r@),
{
    let mut outcomes: Vec<(SecretSpec, ApplyOutcome)> = Vec::new();
    let ghost mut states: Seq<Seq<crate::store::StoredSecretView>> = seq![old(store)@];
    let mut i: usize = 0;
    while i < specifications.len()
        invariant
            store.wf(),
            i <= specifications@.len(),
            outcomes@.len() == i,
            forall|k: int| 0 <= k < i ==> (#[trigger] outcomes@[k]).0 == specifications@[k],
            forall|k: int|
                0 <= k < i ==> ((#[trigger] outcomes@[k]).1 is InvalidName
                    <==> !specifications@[k].valid()),
            forall|k: int| 0 <= k < i ==> !((#[trigger] outcomes@[k]).1 is StoreFailed),
            old(store)@.len() <= store@.len(),
            forall|k: int| 0 <= k < old(store)@.len() ==> store@[k] == old(store)@[k],
            forall|k: int|
                old(store)@.len() <= k < store@.len() ==> from_batch(
                    #[trigger] store@[k],
                    namespace@,
                    specifications@,
                ),
            forall|k: int|
                0 <= k < i && (#[trigger] outcomes@[k]).1 is Applied ==> store_has(
                    store@,
                    namespace@,
                    specifications@[k].name@,
                ),
            states.len() == i + 1,
            states.first() == old(store)@,
            states.last() == store@,
            forall|k: int|
                0 <= k < i ==> apply_transition(
                    states[k],
                    states[k + 1],
                    namespace@,
                    #[trigger] specifications@[k],
                    outcomes@[k].1,
                ),
        decreases specifications@.len() - i,
    {
        let ghost pre = store@;
        let specification = specifications[i].clone();
        let outcome = apply(store, namespace, &specification);
        proof {
            assert forall|k: int|
                0 <= k < i && (#[trigger] outcomes@[k]).1 is Applied implies store_has(
                store@,
                namespace@,
                specifications@[k].name@,
            ) by {
                lemma_store_has_monotone(pre, store@, namespace@, specifications@[k].name@);
            }
            assert forall|k: int|
                old(store)@.len() <= k < store@.len() implies from_batch(
                #[trigger] store@[k],
                namespace@,
                specifications@,
            ) by {
                if k < pre.len() {
                    assert(store@[k] == pre[k]);
                    assert(from_batch(pre[k], namespace@, specifications@));
                } else {
                    let j = i as int;
                    assert(store@[k] == store@.last());
                    assert(store@[k].namespace == namespace@);
                    assert(store@[k].name == (specifications@[j]).name@);
                    assert(material_wf(specifications@[j].kind, store@[k].material));
                }
            }
        }
        outcomes.push((specification, outcome));
        proof {
            states = states.push(store@);
        }
        i = i + 1;
    }
    proof {
        assert(batch_trace(states, old(store)@, store@, namespace@, specifications@, outcomes@));
    }
    outcomes
}

} // verus!
