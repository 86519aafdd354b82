//! An in-memory model of the namespaced store of secrets.
//!
//! The engine depends on one narrow store capability: create an object at
//! (namespace, name) with a payload, or report that it already exists. This
//! module gives that capability a verified in-memory form whose contract is
//! the one the engine relies on; a deployment substitutes any store with the
//! same create-if-absent behaviour.
use crate::secrets::{CreateResult, GeneratedMaterial, MaterialView};
use vstd::prelude::*;

verus! {

/// One stored object: a namespaced name and its material payload.
pub struct StoredSecret {
    pub namespace: String,
    pub name: String,
    pub material: GeneratedMaterial,
}

/// The mathematical image of one stored object.
pub ghost struct StoredSecretView {
    pub namespace: Seq<char>,
    pub name: Seq<char>,
    pub material: MaterialView,
}

impl View for StoredSecret {
    type V = StoredSecretView;

    open spec fn view(&self) -> StoredSecretView {
        StoredSecretView {
            namespace: self.namespace@,
            name: self.name@,
            material: self.material@,
        }
    }
}

/// Whether some entry carries the key (namespace, name).
pub open spec fn store_has(
    s: Seq<StoredSecretView>,
    namespace: Seq<char>,
    name: Seq<char>,
) -> bool {
    exists|i: int| 0 <= i < s.len() && s[i].namespace == namespace && s[i].name == name
}

/// The material stored under the key (namespace, name).
pub open spec fn store_value(
    s: Seq<StoredSecretView>,
    namespace: Seq<char>,
    name: Seq<char>,
) -> MaterialView
    recommends
        store_has(s, namespace, name),
{
    s[choose|i: int| 0 <= i < s.len() && s[i].namespace == namespace && s[i].name == name].material
}

/// A key that is present stays present when the store only grows at the end.
pub proof fn lemma_store_has_monotone(
    s1: Seq<StoredSecretView>,
    s2: Seq<StoredSecretView>,
    namespace: Seq<char>,
    name: Seq<char>,
)
    requires
        s1.len() <= s2.len(),
        forall|i: int| 0 <= i < s1.len() ==> s2[i] == s1[i],
        store_has(s1, namespace, name),
    ensures
        store_has(s2, namespace, name),
{
    let i = choose|i: int|
        0 <= i < s1.len() && s1[i].namespace == namespace && s1[i].name == name;
    assert(s2[i].namespace == namespace && s2[i].name == name);
}

/// The store of secrets, keyed by (namespace, name). Objects are created at
/// most once and never mutated or deleted.
pub struct SecretStore {
    entries: Vec<StoredSecret>,
}

impl View for SecretStore {
    type V = Seq<StoredSecretView>;

    closed spec fn view(&self) -> Seq<StoredSecretView> {
        Seq::new(self.entries@.len(), |i: int| self.entries@[i]@)
    }
}

impl SecretStore {
    /// The at-most-once invariant: no two stored objects share a key.
    pub open spec fn wf(&self) -> bool {
        forall|i: int, j: int|
            0 <= i < j < self@.len() ==> !((#[trigger] self@[i]).namespace
                == (#[trigger] self@[j]).namespace && self@[i].name == self@[j].name)
    }

    /// An empty store.
    pub fn new() -> (r: Self)
        ensures
            r@ =~= Seq::<StoredSecretView>::empty(),
            r.wf(),
    {
        SecretStore { entries: Vec::new() }
    }

    /// Whether an object already exists at (namespace, name).
    pub fn contains(&self, namespace: &String, name: &String) -> (r: bool)
        ensures
            r == store_has(self@, namespace@, name@),
    {
        let mut i: usize = 0;
        while i < self.entries.len()
            invariant
                i <= self.entries@.len(),
                forall|j: int|
                    0 <= j < i ==> !((#[trigger] self@[j]).namespace == namespace@
                        && self@[j].name == name@),
            decreases self.entries@.len() - i,
        {
            let entry = &self.entries[i];
            if entry.namespace.eq(namespace) && entry.name.eq(name) {
                assert(self@[i as int].namespace == namespace@ && self@[i as int].name == name@);
                return true;
            }
            i = i + 1;
        }
        false
    }

    /// How many objects the store holds.
    pub fn len(&self) -> (r: usize)
        ensures
            r == self@.len(),
    {
        self.entries.len()
    }

    /// The material stored under (namespace, name), if any.
    pub fn lookup(&self, namespace: &String, name: &String) -> (r: Option<&GeneratedMaterial>)
        requires
            self.wf(),
        ensures
            r is Some <==> store_has(self@, namespace@, name@),
            r is Some ==> r->0@ == store_value(self@, namespace@, name@),
    {
        let mut i: usize = 0;
        while i < self.entries.len()
            invariant
                i <= self.entries@.len(),
                self.wf(),
                forall|j: int|
                    0 <= j < i ==> !((#[trigger] self@[j]).namespace == namespace@
                        && self@[j].name == name@),
            decreases self.entries@.len() - i,
        {
            let entry = &self.entries[i];
            if entry.namespace.eq(namespace) && entry.name.eq(name) {
                proof {
                    assert(self@[i as int].namespace == namespace@ && self@[i as int].name
                        == name@);
                    let w = choose|w: int|
                        0 <= w < self@.len() && self@[w].namespace == namespace@ && self@[w].name
                            == name@;
                    assert(w == i as int);
                }
                return Some(&self.entries[i].material);
            }
            i = i + 1;
        }
        None
    }

    /// The store write capability the engine consumes: create the object at
    /// (namespace, name) with this payload, or report that it already exists.
    /// An existing value is never overwritten: on a conflict the store is
    /// returned unchanged, and a conflict is the only alternative to creation.
    pub fn create_if_absent(
        &mut self,
        namespace: &String,
        name: &String,
        material: GeneratedMaterial,
    ) -> (r: CreateResult)
        requires
            old(self).wf(),
        ensures
            final(self).wf(),
            !(r is Failed),
            r is AlreadyExists <==> store_has(old(self)@, namespace@, name@),
            r is AlreadyExists ==> final(self)@ == old(self)@,
            r is Created ==> final(self)@ =~= old(self)@.push(
                StoredSecretView { namespace: namespace@, name: name@, material: material@ },
            ),
    {
        if self.contains(namespace, name) {
            return CreateResult::AlreadyExists;
        }
        let ghost pre = self@;
        self.entries.push(
            StoredSecret { namespace: namespace.clone(), name: name.clone(), material },
        );
        proof {
            let post = self@;
            assert forall|i: int| 0 <= i < pre.len() implies post[i] == pre[i] by {
                assert(self.entries@[i] == old(self).entries@[i]);
            }
            assert(post =~= pre.push(
                StoredSecretView { namespace: namespace@, name: name@, material: material@ },
            ));
            assert forall|i: int, j: int|
                0 <= i < j < post.len() implies !((#[trigger] post[i]).namespace
                == (#[trigger] post[j]).namespace && post[i].name == post[j].name) by {
                if j == post.len() - 1 {
                    assert(!(pre[i].namespace == namespace@ && pre[i].name == name@));
                }
            }
        }
        CreateResult::Created
    }
}

} // verus!
