use az_group_manager::azure::{
    group_info_url, members_url, merge_group_response, partition_members, GroupInfoResponse,
    GroupResponse, GroupResponseMember,
};
use az_group_manager::crd::{AzureGroupManagerSpec, AzureGroupSpec, AzureGroupStatus, Member};
use az_group_manager::error::Error;
use az_group_manager::k8s::{create_azure_group_resource, AzureGroup, AzureGroupManager, OwnerReference};
use az_group_manager::reconciler::{error_policy, next_delay, reconcile_step, Action, Args, Command, Event};
use az_group_manager::store::{patch_azure_group, GroupStore};
use az_group_manager::text::joined;

fn raw_member(id: &str, name: &str, mail: Option<&str>) -> GroupResponseMember {
    GroupResponseMember {
        id: id.to_string(),
        display_name: name.to_string(),
        mail: mail.map(|m| m.to_string()),
    }
}

fn response(id: Option<&str>, name: Option<&str>, members: Vec<GroupResponseMember>) -> GroupResponse {
    GroupResponse {
        members,
        id: id.map(|s| s.to_string()),
        display_name: name.map(|s| s.to_string()),
        description: Some("a team".to_string()),
        mail: None,
    }
}

fn platform_team() -> GroupResponse {
    response(
        Some("g-123"),
        Some("Platform Team"),
        vec![
            raw_member("u1", "Ann", Some("ann@example.com")),
            raw_member("u2", "Bob", None),
            raw_member("u3", "Cid", Some("cid@example.com")),
        ],
    )
}

fn manager(namespace: Option<&str>) -> AzureGroupManager {
    AzureGroupManager {
        name: "platform".to_string(),
        namespace: namespace.map(|s| s.to_string()),
        owner_ref: OwnerReference {
            api_version: "kerwood.github.com/v1".to_string(),
            kind: "AzureGroupManager".to_string(),
            name: "platform".to_string(),
            uid: "uid-1".to_string(),
        },
        spec: AzureGroupManagerSpec { group_uid: "g-123".to_string() },
        status: None,
    }
}

fn args() -> Args {
    Args {
        az_tenant_id: "tenant".to_string(),
        az_client_id: "client".to_string(),
        az_client_secret: "SECRET-REDACTED".to_string(),
        reconcile_time: 300,
        retry_time: 10,
    }
}

fn done(c: Command) -> Result<Action, Error> {
    match c {
        Command::Done(r) => r,
        _ => panic!("the cycle should be over"),
    }
}

#[test]
fn member_with_mail_is_accepted() {
    let m = Member::try_from(raw_member("u1", "Ann", Some("ann@example.com"))).unwrap();
    assert_eq!(m, Member { id: "u1".to_string(), display_name: "Ann".to_string(), mail: "ann@example.com".to_string() });
}

#[test]
fn member_without_mail_is_rejected_with_its_name() {
    let e = Member::try_from(raw_member("u2", "Bob", None)).unwrap_err();
    assert!(matches!(&e, Error::IntoMemberFailed(_)));
    assert!(e.message().contains("Bob"));
}

#[test]
fn partition_reports_each_rejected_member() {
    let (accepted, rejected) = partition_members(&platform_team().members);
    assert_eq!(accepted.len(), 2);
    assert_eq!(accepted[0].id, "u1");
    assert_eq!(accepted[1].id, "u3");
    assert_eq!(rejected.len(), 1);
    match &rejected[0] {
        Error::IntoMemberFailed(s) => assert_eq!(s, "property 'mail' is missing on Bob"),
        _ => panic!("wrong error"),
    }
}

#[test]
fn conversion_drops_members_without_mail() {
    let spec = AzureGroupSpec::try_from(platform_team()).unwrap();
    assert_eq!(spec.members.len(), 2);
    assert_eq!(spec.count, 2);
    assert_eq!(spec.id, "g-123");
    assert_eq!(spec.display_name, "Platform Team");
    assert_eq!(spec.description, Some("a team".to_string()));
    assert!(spec.members.iter().all(|m| m.id != "u2"));
}

#[test]
fn conversion_of_all_rejected_members_gives_empty_list() {
    let g = response(Some("g-1"), Some("Empty"), vec![raw_member("u1", "A", None), raw_member("u2", "B", None)]);
    let spec = AzureGroupSpec::try_from(g).unwrap();
    assert!(spec.members.is_empty());
    assert_eq!(spec.count, 0);
}

#[test]
fn conversion_without_id_fails() {
    let e = AzureGroupSpec::try_from(response(None, Some("Platform Team"), vec![])).unwrap_err();
    match &e {
        Error::IntoAzureGroupSpecFailed(s) => assert_eq!(s, "field 'id' is None."),
        _ => panic!("wrong error"),
    }
}

#[test]
fn conversion_without_display_name_names_the_group() {
    let e = AzureGroupSpec::try_from(response(Some("g-123"), None, vec![])).unwrap_err();
    match &e {
        Error::IntoAzureGroupSpecFailed(s) => assert_eq!(s, "field 'display_name' is None on group: g-123"),
        _ => panic!("wrong error"),
    }
    assert!(e.message().contains("g-123"));
}

#[test]
fn slug_is_lower_case_and_dashed() {
    assert_eq!(platform_team().slug_display_name(), Some("platform-team".to_string()));
    let g = response(Some("g"), Some("  My Test String!!!1!1"), vec![]);
    assert_eq!(g.slug_display_name(), Some("my-test-string-1-1".to_string()));
    assert_eq!(response(Some("g"), None, vec![]).slug_display_name(), None);
}

#[test]
fn slug_is_stable_across_calls() {
    let a = platform_team().slug_display_name();
    let b = platform_team().slug_display_name();
    assert_eq!(a, b);
}

#[test]
fn merge_keys_response_by_requested_id() {
    let members = response(None, None, vec![raw_member("u1", "Ann", Some("a@x"))]);
    let info = GroupInfoResponse {
        display_name: Some("Platform Team".to_string()),
        description: None,
        mail: Some("team@x".to_string()),
    };
    let g = merge_group_response(&"g-123".to_string(), members, info);
    assert_eq!(g.id, Some("g-123".to_string()));
    assert_eq!(g.display_name, Some("Platform Team".to_string()));
    assert_eq!(g.mail, Some("team@x".to_string()));
    assert_eq!(g.description, None);
    assert_eq!(g.members.len(), 1);
}

#[test]
fn directory_urls() {
    let m = members_url("g-123").unwrap();
    assert_eq!(m.as_str(), "https://graph.microsoft.com/v1.0/groups/g-123/members");
    let i = group_info_url("g-123").unwrap();
    assert_eq!(i.as_str(), "https://graph.microsoft.com/v1.0/groups/g-123");
}

#[test]
fn concat_joins_text() {
    assert_eq!(joined("ab", "cd"), "abcd");
}

#[test]
fn resource_is_named_by_slug_and_owned_by_manager() {
    let g = create_azure_group_resource(platform_team(), &manager(Some("ns")), "2024-01-02 03:04:05".to_string()).unwrap();
    assert_eq!(g.name, "platform-team");
    assert_eq!(g.namespace, "ns");
    assert_eq!(g.owner_references.len(), 1);
    assert_eq!(g.owner_references[0].uid, "uid-1");
    assert_eq!(g.spec.count, 2);
    assert_eq!(g.status.unwrap().last_update, "2024-01-02 03:04:05");
}

#[test]
fn resource_without_namespace_fails() {
    let e = create_azure_group_resource(platform_team(), &manager(None), "t".to_string()).unwrap_err();
    match &e {
        Error::MissingObjectKey(k) => assert_eq!(k, ".metadata.namespace"),
        _ => panic!("wrong error"),
    }
}

#[test]
fn upsert_twice_keeps_one_resource() {
    let mut store = GroupStore::new();
    let g1 = create_azure_group_resource(platform_team(), &manager(Some("ns")), "t1".to_string()).unwrap();
    let g2 = create_azure_group_resource(platform_team(), &manager(Some("ns")), "t1".to_string()).unwrap();
    patch_azure_group(&mut store, g1).unwrap();
    assert_eq!(store.groups.len(), 1);
    let members_before = store.groups[0].spec.members.clone();
    patch_azure_group(&mut store, g2).unwrap();
    assert_eq!(store.groups.len(), 1);
    assert_eq!(store.groups[0].spec.members, members_before);
    assert_eq!(store.groups[0].status.as_ref().unwrap().last_update, "t1");
}

#[test]
fn apply_keeps_status_and_patch_status_sets_it() {
    let mut store = GroupStore::new();
    let g = create_azure_group_resource(platform_team(), &manager(Some("ns")), "t1".to_string()).unwrap();
    store.apply(g);
    assert!(store.groups[0].status.is_none());
    let ns = "ns".to_string();
    let name = "platform-team".to_string();
    store.patch_status(&ns, &name, AzureGroupStatus { last_update: "t2".to_string() }).unwrap();
    assert_eq!(store.groups[0].status.as_ref().unwrap().last_update, "t2");
    let missing = store.patch_status(&ns, &"other".to_string(), AzureGroupStatus { last_update: "t3".to_string() });
    assert!(matches!(missing, Err(Error::AzureGroupCreationFailed(_))));
    assert_eq!(store.find(&ns, &name), Some(0));
}

#[test]
fn delays_follow_outcome() {
    let a = args();
    assert!(a.intervals_valid());
    assert_eq!(next_delay(&a, &Ok(Action { requeue_after: 300 })), 300);
    assert_eq!(next_delay(&a, &Err(Error::Reqwest("401".to_string()))), 10);
    assert_eq!(error_policy(&Error::KubeRS("x".to_string()), &a).requeue_after, 10);
    let bad = Args { retry_time: 300, ..args() };
    assert!(!bad.intervals_valid());
}

#[test]
fn cycle_projects_platform_team() {
    let a = args();
    let m = manager(Some("ns"));
    let now = "2024-01-02 03:04:05".to_string();
    let mut store = GroupStore::new();
    match reconcile_step(&a, &m, &now, Event::Started) {
        Command::FetchGroup(id) => assert_eq!(id, "g-123"),
        _ => panic!("the cycle should read the directory"),
    }
    let group = match reconcile_step(&a, &m, &now, Event::Fetched(Ok(platform_team()))) {
        Command::WriteGroup(g) => g,
        _ => panic!("the cycle should write the group"),
    };
    assert_eq!(group.name, "platform-team");
    assert_eq!(group.spec.members.len(), 2);
    assert_eq!(group.spec.count, 2);
    let written = patch_azure_group(&mut store, group);
    let status = match reconcile_step(&a, &m, &now, Event::GroupWritten(written)) {
        Command::PatchManagerStatus(s) => s,
        _ => panic!("the cycle should stamp the manager"),
    };
    assert_eq!(status.last_update, now);
    let outcome = done(reconcile_step(&a, &m, &now, Event::ManagerPatched(Ok(()))));
    assert_eq!(outcome.as_ref().unwrap().requeue_after, 300);
    assert_eq!(next_delay(&a, &outcome), 300);
    assert_eq!(store.groups.len(), 1);
}

#[test]
fn auth_failure_writes_nothing_and_retries() {
    let a = args();
    let m = manager(Some("ns"));
    let now = "t".to_string();
    let store = GroupStore::new();
    let outcome = done(reconcile_step(&a, &m, &now, Event::Fetched(Err(Error::AzureCore("401 Unauthorized".to_string())))));
    assert!(matches!(outcome, Err(Error::AzureCore(_))));
    assert_eq!(next_delay(&a, &outcome), 10);
    assert_eq!(store.groups.len(), 0);
    assert!(m.status.is_none());
}

#[test]
fn missing_display_name_fails_cycle() {
    let a = args();
    let m = manager(Some("ns"));
    let now = "t".to_string();
    let outcome = done(reconcile_step(&a, &m, &now, Event::Fetched(Ok(response(Some("g-123"), None, vec![])))));
    let e = outcome.as_ref().unwrap_err();
    assert!(e.message().contains("g-123"));
    assert_eq!(next_delay(&a, &outcome), 10);
}

#[test]
fn write_failure_ends_cycle_before_manager_stamp() {
    let a = args();
    let m = manager(Some("ns"));
    let now = "t".to_string();
    let outcome = done(reconcile_step(&a, &m, &now, Event::GroupWritten(Err(Error::AzureGroupCreationFailed("denied".to_string())))));
    assert!(matches!(outcome, Err(Error::AzureGroupCreationFailed(_))));
    let outcome = done(reconcile_step(&a, &m, &now, Event::ManagerPatched(Err(Error::KubeRS("gone".to_string())))));
    assert_eq!(next_delay(&a, &outcome), 10);
}

#[test]
fn error_messages_name_their_kind() {
    assert_eq!(Error::MissingObjectKey(".metadata.namespace".to_string()).message(), "MissingObjectKey: .metadata.namespace");
    assert_eq!(Error::NamespaceMissing("x".to_string()).message(), "Namespace is missing from AzureGroup resource x");
    let _unused: Option<AzureGroup> = None;
}
