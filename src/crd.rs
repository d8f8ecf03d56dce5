use vstd::prelude::*;

verus! {

/// A member of a projected group. All three fields are mandatory.
#[derive(Clone, Debug, PartialEq, Eq, Hash)]
pub struct Member {
    pub id: String,
    pub display_name: String,
    pub mail: String,
}

/// The observed state of an external group, as stored in the cluster.
#[derive(Clone, Debug)]
pub struct AzureGroupSpec {
    pub id: String,
    pub members: Vec<Member>,
    pub count: usize,
    pub display_name: String,
    pub description: Option<String>,
    pub mail: Option<String>,
}

impl AzureGroupSpec {
    /// The member count always equals the length of the member list.
    pub open spec fn wf(&self) -> bool {
        self.count == self.members@.len()
    }
}

/// Status of a projected group: when the reconciler last wrote it.
#[derive(Clone, Debug)]
pub struct AzureGroupStatus {
    pub last_update: String,
}

/// The desired-state declaration: which external group to track.
#[derive(Clone, Debug)]
pub struct AzureGroupManagerSpec {
    pub group_uid: String,
}

/// Status of a manager object: when its group was last projected.
#[derive(Clone, Debug)]
pub struct AzureGroupManagerStatus {
    pub last_update: String,
}

} // verus!
