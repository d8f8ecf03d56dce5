use vstd::prelude::*;
use crate::azure::{
    is_conversion_failure, is_conversion_of, is_slug, missing_display_name_detail,
    missing_id_detail, slug_of, GroupResponse,
};
use crate::crd::{AzureGroupManagerSpec, AzureGroupManagerStatus, AzureGroupSpec, AzureGroupStatus};
use crate::error::Error;

verus! {

/// A back-reference from a projected group to the manager that caused it.
#[derive(Clone, Debug)]
pub struct OwnerReference {
    pub api_version: String,
    pub kind: String,
    pub name: String,
    pub uid: String,
}

/// A manager object as the reconciler reads it from the store.
#[derive(Debug)]
pub struct AzureGroupManager {
    pub name: String,
    pub namespace: Option<String>,
    pub owner_ref: OwnerReference,
    pub spec: AzureGroupManagerSpec,
    pub status: Option<AzureGroupManagerStatus>,
}

/// A projected group resource, named by the slug of its display name.
#[derive(Debug)]
pub struct AzureGroup {
    pub name: String,
    pub namespace: String,
    pub owner_references: Vec<OwnerReference>,
    pub spec: AzureGroupSpec,
    pub status: Option<AzureGroupStatus>,
}

/// The detail of the failure for a manager without a namespace.
pub open spec fn namespace_key() -> Seq<char> {
    ".metadata.namespace"@
}

/// `e` reports that the object key `k` is missing.
pub open spec fn is_missing_key(e: Error, k: Seq<char>) -> bool {
    match e {
        Error::MissingObjectKey(s) => s@ == k,
        _ => false,
    }
}

fn clone_owner_ref(o: &OwnerReference) -> (r: OwnerReference)
    ensures
        r == *o,
{
    OwnerReference {
        api_version: o.api_version.clone(),
        kind: o.kind.clone(),
        name: o.name.clone(),
        uid: o.uid.clone(),
    }
}

/// `r` is the group resource that a reconciliation writes for `g` under
/// `manager`, stamped with `now`.
pub open spec fn is_desired_group(r: AzureGroup, g: GroupResponse, manager: AzureGroupManager, now: Seq<char>) -> bool {
    &&& manager.namespace is Some
    &&& r.name@ == slug_of(g.display_name->0@)
    &&& r.namespace == manager.namespace->0
    &&& r.owner_references@ == seq![manager.owner_ref]
    &&& is_conversion_of(r.spec, g)
    &&& r.status is Some && r.status->0.last_update@ == now
}

/// Builds the group resource that projects `g_response` under `manager`:
/// validated spec, slug name, owner reference to the manager and a status
/// stamped with `now`. Fails when the response does not validate or the
/// manager has no namespace.
pub fn create_azure_group_resource(g_response: GroupResponse, manager: &AzureGroupManager, now: String) -> (r: Result<AzureGroup, Error>)
    ensures
        g_response.id is None ==> r is Err && is_conversion_failure(r->Err_0, missing_id_detail()),
        g_response.id is Some && g_response.display_name is None ==> r is Err
            && is_conversion_failure(r->Err_0, missing_display_name_detail(g_response.id->0@)),
        g_response.id is Some && g_response.display_name is Some && manager.namespace is None ==> r is Err
            && is_missing_key(r->Err_0, namespace_key()),
        g_response.id is Some && g_response.display_name is Some && manager.namespace is Some ==> r is Ok
            && is_desired_group(r->Ok_0, g_response, *manager, now@),
        r is Ok ==> r->Ok_0.spec.wf() && is_slug(r->Ok_0.name@),
{
    let slug = g_response.slug_display_name();
    let azure_spec = match AzureGroupSpec::try_from(g_response) {
        Ok(s) => s,
        Err(e) => return Err(e),
    };
    let owner_ref = clone_owner_ref(&manager.owner_ref);
    let namespace = match &manager.namespace {
        Some(ns) => ns.clone(),
        None => return Err(Error::MissingObjectKey(".metadata.namespace".to_owned())),
    };
    let name = match slug {
        Some(name) => name,
        None => return Err(Error::MissingDisplayName(azure_spec.id.clone())),
    };
    let owner_references = vec![owner_ref];
    assert(owner_references@ =~= seq![manager.owner_ref]);
    Ok(AzureGroup {
        name,
        namespace,
        owner_references,
        spec: azure_spec,
        status: Some(AzureGroupStatus { last_update: now }),
    })
}

} // verus!
