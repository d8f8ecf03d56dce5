use vstd::prelude::*;
use crate::azure::{
    is_conversion_failure, missing_display_name_detail, missing_id_detail, GroupResponse,
};
use crate::crd::AzureGroupManagerStatus;
use crate::error::Error;
use crate::k8s::{
    create_azure_group_resource, is_desired_group, is_missing_key, namespace_key, AzureGroup,
    AzureGroupManager,
};

verus! {

/// The configuration of the reconciler: directory credentials and the delays,
/// in seconds, before the next cycle after a success and after a failure.
#[derive(Clone, Debug)]
pub struct Args {
    pub az_tenant_id: String,
    pub az_client_id: String,
    pub az_client_secret: String,
    pub reconcile_time: u64,
    pub retry_time: u64,
}

impl Args {
    /// A failed cycle is retried sooner than a successful one is repeated.
    pub open spec fn wf(&self) -> bool {
        self.retry_time < self.reconcile_time
    }

    /// Whether the configured delays satisfy `wf`.
    pub fn intervals_valid(&self) -> (r: bool)
        ensures
            r == self.wf(),
    {
        self.retry_time < self.reconcile_time
    }
}

/// What the scheduler is told after a cycle: run the next one after this many seconds.
#[derive(Clone, Copy, Debug, PartialEq, Eq)]
pub struct Action {
    pub requeue_after: u64,
}

/// The outcome of a reconciliation cycle.
pub type ReconcileResult = Result<Action, Error>;

/// The next piece of outside work that a reconciliation cycle asks for, or its outcome.
pub enum Command {
    /// Read the group with this id from the directory.
    FetchGroup(String),
    /// Write this group resource and then its status.
    WriteGroup(AzureGroup),
    /// Write this status on the manager object.
    PatchManagerStatus(AzureGroupManagerStatus),
    /// The cycle is over.
    Done(ReconcileResult),
}

/// What the outside work of the last command gave.
pub enum Event {
    /// A cycle begins.
    Started,
    /// The directory read finished.
    Fetched(Result<GroupResponse, Error>),
    /// The group resource write finished.
    GroupWritten(Result<(), Error>),
    /// The manager status write finished.
    ManagerPatched(Result<(), Error>),
}

/// The action after a successful cycle.
pub open spec fn success_action(args: Args) -> Action {
    Action { requeue_after: args.reconcile_time }
}

/// The delay before the next cycle, given how the last one ended.
pub open spec fn outcome_delay(args: Args, outcome: ReconcileResult) -> u64 {
    match outcome {
        Ok(a) => a.requeue_after,
        Err(_) => args.retry_time,
    }
}

/// The decisions of one reconciliation cycle for `manager`: from the event
/// that ended the last piece of outside work to the next command. A cycle reads
/// the directory, writes the group, then stamps the manager with `now`; any
/// failure ends it at once with that failure, and success ends it with a
/// requeue after the success interval.
pub fn reconcile_step(args: &Args, manager: &AzureGroupManager, now: &String, event: Event) -> (r: Command)
    ensures
        event is Started ==> (r matches Command::FetchGroup(id) && id@ == manager.spec.group_uid@),
        event matches Event::Fetched(Err(e)) ==> (r matches Command::Done(Err(e2)) && e2 == e),
        event matches Event::Fetched(Ok(g)) ==> {
            &&& g.id is None ==> (r matches Command::Done(Err(e)) && is_conversion_failure(e, missing_id_detail()))
            &&& g.id is Some && g.display_name is None ==> (r matches Command::Done(Err(e))
                && is_conversion_failure(e, missing_display_name_detail(g.id->0@)))
            &&& g.id is Some && g.display_name is Some && manager.namespace is None ==> (r matches Command::Done(Err(e))
                && is_missing_key(e, namespace_key()))
            &&& g.id is Some && g.display_name is Some && manager.namespace is Some ==> (r matches Command::WriteGroup(w)
                && is_desired_group(w, g, *manager, now@))
        },
        event matches Event::GroupWritten(Err(e)) ==> (r matches Command::Done(Err(e2)) && e2 == e),
        event matches Event::GroupWritten(Ok(_)) ==> (r matches Command::PatchManagerStatus(s) && s.last_update@ == now@),
        event matches Event::ManagerPatched(Err(e)) ==> (r matches Command::Done(Err(e2)) && e2 == e),
        event matches Event::ManagerPatched(Ok(_)) ==> (r matches Command::Done(Ok(a)) && a == success_action(*args)),
        r matches Command::Done(Ok(a)) ==> a == success_action(*args),
{
    match event {
        Event::Started => Command::FetchGroup(manager.spec.group_uid.clone()),
        Event::Fetched(Err(e)) => Command::Done(Err(e)),
        Event::Fetched(Ok(g)) => match create_azure_group_resource(g, manager, now.clone()) {
            Ok(group) => Command::WriteGroup(group),
            Err(e) => Command::Done(Err(e)),
        },
        Event::GroupWritten(Err(e)) => Command::Done(Err(e)),
        Event::GroupWritten(Ok(())) => Command::PatchManagerStatus(AzureGroupManagerStatus { last_update: now.clone() }),
        Event::ManagerPatched(Err(e)) => Command::Done(Err(e)),
        Event::ManagerPatched(Ok(())) => Command::Done(Ok(Action { requeue_after: args.reconcile_time })),
    }
}

/// The action after a failed cycle: retry after the retry interval.
pub fn error_policy(err: &Error, args: &Args) -> (r: Action)
    ensures
        r.requeue_after == args.retry_time,
{
    Action { requeue_after: args.retry_time }
}

/// The delay before the next cycle after `outcome`.
pub fn next_delay(args: &Args, outcome: &ReconcileResult) -> (r: u64)
    ensures
        r == outcome_delay(*args, *outcome),
{
    match outcome {
        Ok(a) => a.requeue_after,
        Err(e) => error_policy(e, args).requeue_after,
    }
}

/// A successful cycle is followed by the success interval, a failed one by the
/// retry interval, and with a valid configuration the retry comes sooner.
pub proof fn lemma_cycle_delays(args: Args, e: Error)
    requires
        args.wf(),
    ensures
        outcome_delay(args, Ok(success_action(args))) == args.reconcile_time,
        outcome_delay(args, Err(e)) == args.retry_time,
        outcome_delay(args, Err(e)) < outcome_delay(args, Ok(success_action(args))),
{
}

} // verus!
