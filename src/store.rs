use vstd::prelude::*;
use crate::crd::AzureGroupStatus;
use crate::error::Error;
use crate::k8s::AzureGroup;
use crate::text::joined;

verus! {

/// Two resources share an identity when their namespace and name agree.
pub open spec fn same_key(a: AzureGroup, b: AzureGroup) -> bool {
    a.namespace@ == b.namespace@ && a.name@ == b.name@
}

/// No two stored resources share an identity.
pub open spec fn keys_unique(s: Seq<AzureGroup>) -> bool {
    forall|i: int, j: int| 0 <= i < s.len() && 0 <= j < s.len() && i != j ==> !same_key(#[trigger] s[i], #[trigger] s[j])
}

/// Whether a resource with the identity of `g` is stored.
pub open spec fn holds_key(s: Seq<AzureGroup>, g: AzureGroup) -> bool {
    exists|i: int| 0 <= i < s.len() && same_key(#[trigger] s[i], g)
}

/// `g` written over a stored resource: its spec and references replace the old
/// ones, while the status sub-resource is left as it was.
pub open spec fn applied(old_status: Option<AzureGroupStatus>, g: AzureGroup) -> AzureGroup {
    AzureGroup {
        name: g.name,
        namespace: g.namespace,
        owner_references: g.owner_references,
        spec: g.spec,
        status: old_status,
    }
}

/// The stored resources after an apply-style write of `g`: the resource with
/// its identity is overwritten in place, or a new one is added with no status.
pub open spec fn apply_spec(s: Seq<AzureGroup>, g: AzureGroup) -> Seq<AzureGroup> {
    if holds_key(s, g) {
        let i = choose|i: int| 0 <= i < s.len() && same_key(#[trigger] s[i], g);
        s.update(i, applied(s[i].status, g))
    } else {
        s.push(applied(None, g))
    }
}

/// The position of the resource with the identity of `g`.
pub open spec fn index_of_key(s: Seq<AzureGroup>, g: AzureGroup) -> int {
    choose|i: int| 0 <= i < s.len() && same_key(#[trigger] s[i], g)
}

/// An apply-style write keeps identities unique, leaves exactly one resource
/// with the identity of the written one, adds a resource only when none had that
/// identity, and writing the same resource again changes nothing.
pub proof fn lemma_apply_idempotent(s: Seq<AzureGroup>, g: AzureGroup)
    requires
        keys_unique(s),
    ensures
        keys_unique(apply_spec(s, g)),
        holds_key(apply_spec(s, g), g),
        apply_spec(s, g).len() == s.len() + (if holds_key(s, g) { 0int } else { 1int }),
        apply_spec(apply_spec(s, g), g) == apply_spec(s, g),
{
    let s1 = apply_spec(s, g);
    let i = if holds_key(s, g) {
        choose|i: int| 0 <= i < s.len() && same_key(#[trigger] s[i], g)
    } else {
        s.len() as int
    };
    assert(same_key(s1[i], g));
    assert(s1[i] == applied(s1[i].status, g));
    assert forall|a: int, b: int| 0 <= a < s1.len() && 0 <= b < s1.len() && a != b implies !same_key(#[trigger] s1[a], #[trigger] s1[b]) by {
        if a != i && b != i {
            assert(s1[a] == s[a] && s1[b] == s[b]);
        }
    }
    let j = choose|j: int| 0 <= j < s1.len() && same_key(#[trigger] s1[j], g);
    assert(j == i);
    assert(apply_spec(s1, g) =~= s1);
}

/// An in-memory resource store with apply semantics: resources are keyed by
/// namespace and name, and the status is written apart from the rest.
pub struct GroupStore {
    pub groups: Vec<AzureGroup>,
}

fn clone_status(s: &Option<AzureGroupStatus>) -> (r: Option<AzureGroupStatus>)
    ensures
        r == *s,
{
    match s {
        None => None,
        Some(st) => Some(AzureGroupStatus { last_update: st.last_update.clone() }),
    }
}

impl GroupStore {
    pub open spec fn wf(&self) -> bool {
        keys_unique(self.groups@)
    }

    /// An empty store.
    pub fn new() -> (r: GroupStore)
        ensures
            r.wf(),
            r.groups@.len() == 0,
    {
        GroupStore { groups: Vec::new() }
    }

    /// The position of the resource named `name` in `namespace`, if stored.
    pub fn find(&self, namespace: &String, name: &String) -> (r: Option<usize>)
        ensures
            r is Some ==> r->0 < self.groups@.len() && self.groups@[r->0 as int].namespace@ == namespace@
                && self.groups@[r->0 as int].name@ == name@,
            r is None ==> forall|i: int| 0 <= i < self.groups@.len() ==> !(#[trigger] self.groups@[i].namespace@ == namespace@
                && self.groups@[i].name@ == name@),
    {
        let mut i: usize = 0;
        while i < self.groups.len()
            invariant
                i <= self.groups@.len(),
                forall|k: int| 0 <= k < i ==> !(#[trigger] self.groups@[k].namespace@ == namespace@ && self.groups@[k].name@ == name@),
            decreases self.groups@.len() - i,
        {
            if self.groups[i].namespace == *namespace && self.groups[i].name == *name {
                return Some(i);
            }
            i = i + 1;
        }
        None
    }

    /// Apply-style create-or-update of `group`, keyed by namespace and name.
    pub fn apply(&mut self, group: AzureGroup)
        requires
            old(self).wf(),
        ensures
            final(self).wf(),
            final(self).groups@ == apply_spec(old(self).groups@, group),
    {
        match self.find(&group.namespace, &group.name) {
            Some(i) => {
                proof {
                    assert(same_key(self.groups@[i as int], group));
                    let j = choose|j: int| 0 <= j < self.groups@.len() && same_key(#[trigger] self.groups@[j], group);
                    assert(j == i);
                }
                let status = clone_status(&self.groups[i].status);
                let AzureGroup { name, namespace, owner_references, spec, status: _ } = group;
                self.groups.set(i, AzureGroup { name, namespace, owner_references, spec, status });
            },
            None => {
                let AzureGroup { name, namespace, owner_references, spec, status: _ } = group;
                self.groups.push(AzureGroup { name, namespace, owner_references, spec, status: None });
            },
        }
    }

    /// Writes the status sub-resource of the resource named `name` in
    /// `namespace`; fails when no such resource is stored.
    pub fn patch_status(&mut self, namespace: &String, name: &String, status: AzureGroupStatus) -> (r: Result<(), Error>)
        requires
            old(self).wf(),
        ensures
            final(self).wf(),
            r is Ok <==> exists|i: int| 0 <= i < old(self).groups@.len() && #[trigger] old(self).groups@[i].namespace@ == namespace@
                && old(self).groups@[i].name@ == name@,
            r is Ok ==> exists|i: int| 0 <= i < old(self).groups@.len() && #[trigger] old(self).groups@[i].namespace@ == namespace@
                && old(self).groups@[i].name@ == name@ && final(self).groups@ == old(self).groups@.update(i, AzureGroup {
                    status: Some(status),
                    ..old(self).groups@[i]
                }),
            r is Err ==> final(self).groups@ == old(self).groups@,
    {
        match self.find(namespace, name) {
            Some(i) => {
                let old_group = self.groups.remove(i);
                let AzureGroup { name, namespace, owner_references, spec, status: _ } = old_group;
                self.groups.insert(i, AzureGroup { name, namespace, owner_references, spec, status: Some(status) });
                Ok(())
            },
            None => Err(Error::AzureGroupCreationFailed(joined("not found: ", name.as_str()))),
        }
    }
}

/// Writes a group resource: an apply-style write of the resource, then a
/// write of its status sub-resource when it carries one.
pub fn patch_azure_group(store: &mut GroupStore, az_group: AzureGroup) -> (r: Result<(), Error>)
    requires
        old(store).wf(),
    ensures
        r is Ok,
        final(store).wf(),
        az_group.status is None ==> final(store).groups@ == apply_spec(old(store).groups@, az_group),
        az_group.status is Some ==> final(store).groups@ == apply_spec(old(store).groups@, az_group).update(
            index_of_key(apply_spec(old(store).groups@, az_group), az_group),
            az_group,
        ),
{
    let namespace = az_group.namespace.clone();
    let name = az_group.name.clone();
    let status = clone_status(&az_group.status);
    let ghost g = az_group;
    store.apply(az_group);
    proof {
        lemma_apply_idempotent(old(store).groups@, g);
    }
    match status {
        None => Ok(()),
        Some(st) => {
            let r = store.patch_status(&namespace, &name, st);
            proof {
                let s1 = apply_spec(old(store).groups@, g);
                let k = index_of_key(s1, g);
                assert(same_key(s1[k], g));
                let i = choose|i: int| 0 <= i < s1.len() && #[trigger] s1[i].namespace@ == namespace@
                    && s1[i].name@ == name@ && final(store).groups@ == s1.update(i, AzureGroup {
                        status: g.status,
                        ..s1[i]
                    });
                assert(i == k);
                assert(s1[k] == applied(s1[k].status, g));
            }
            r
        },
    }
}

} // verus!
