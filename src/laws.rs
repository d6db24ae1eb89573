use vstd::prelude::*;

use crate::action_state::{DeploymentVerb, ServerVerb};
use crate::entities::{permitted, PermissionLevel, User};
use crate::state::{
    action_finished, action_opened, failure_logs, log_entry, stop_all_finished, stop_failures, ActionKind, CoreError, ResourceKind,
    State,
};
use crate::update::{failed_count, Log, Operation, UpdateStatus};

verus! {

/// No resource ever has two action flags set at once.
pub proof fn at_most_one_action_in_flight(s: State, id: Seq<char>)
    requires
        s.wf(),
    ensures
        forall|v: DeploymentVerb, w: DeploymentVerb|
            s.flag_of(id, ActionKind::Deployment(v)) && s.flag_of(id, ActionKind::Deployment(w)) ==> v == w,
        forall|v: ServerVerb, w: ServerVerb|
            s.flag_of(id, ActionKind::Server(v)) && s.flag_of(id, ActionKind::Server(w)) ==> v == w,
{
    assert(s.deployment_action_states.spec_get(id) matches Some(a) ==> a.flags_set() <= 1);
    assert(s.server_action_states.spec_get(id) matches Some(a) ==> a.flags_set() <= 1);
}

/// While a deployment has an action in flight, every further action on it
/// is refused as busy (and a refused action writes nothing).
pub proof fn deployment_single_flight(s: State, id: Seq<char>, user: User)
    requires
        s.wf(),
        s.deployment_is_busy(id),
    ensures
        s.deployment_precheck(id, user) == Err::<(crate::entities::Deployment, crate::entities::Server), CoreError>(
            CoreError::DeploymentBusy,
        ),
{
}

/// While a server has an action in flight, every further action on it is
/// refused as busy (and a refused action writes nothing).
pub proof fn server_single_flight(s: State, id: Seq<char>, user: User)
    requires
        s.wf(),
        s.server_is_busy(id),
    ensures
        s.server_precheck(id, user) == Err::<crate::entities::Server, CoreError>(CoreError::ServerBusy),
{
}

/// A user without execute permission on an idle deployment is refused with
/// a permission error (and a refused action writes nothing).
pub proof fn deployment_permission_enforced(s: State, id: Seq<char>, user: User)
    requires
        s.wf(),
        !s.deployment_is_busy(id),
        s.deployments.spec_get(id) matches Some(d) && !permitted(d.permissions@, user, PermissionLevel::Execute),
    ensures
        s.deployment_precheck(id, user) == Err::<(crate::entities::Deployment, crate::entities::Server), CoreError>(
            CoreError::PermissionDenied(ResourceKind::Deployment),
        ),
{
}

/// A user without execute permission on an idle server is refused with a
/// permission error (and a refused action writes nothing).
pub proof fn server_permission_enforced(s: State, id: Seq<char>, user: User)
    requires
        s.wf(),
        !s.server_is_busy(id),
        s.servers.spec_get(id) matches Some(srv) && !permitted(srv.permissions@, user, PermissionLevel::Execute),
    ensures
        s.server_precheck(id, user) == Err::<crate::entities::Server, CoreError>(CoreError::PermissionDenied(ResourceKind::Server)),
{
}

/// An admitted action that is then finished leaves exactly one new update
/// in the store, complete, ending no earlier than it started, and failed
/// when the agent call failed; every earlier update is untouched.
pub proof fn update_exactly_once(
    s0: State,
    s1: State,
    s2: State,
    id: Seq<char>,
    kind: ActionKind,
    operation: Operation,
    operator: Seq<char>,
    version: Option<String>,
    now: i64,
    idx: usize,
    outcome: Result<Log, String>,
    later: i64,
)
    requires
        action_opened(&s0, &s1, id, kind, operation, operator, version, now, idx),
        action_finished(s1.updates@, s2.updates@, idx as int, kind, outcome, later),
    ensures
        s2.updates@.len() == s0.updates@.len() + 1,
        s2.updates@.subrange(0, s0.updates@.len() as int) == s0.updates@,
        s2.updates@[idx as int].status == UpdateStatus::Complete,
        s2.updates@[idx as int].end_ts matches Some(e) && s2.updates@[idx as int].start_ts <= e,
        s2.updates@[idx as int].logs@.len() == 1,
        outcome is Err ==> !s2.updates@[idx as int].success,
        outcome matches Ok(l) ==> s2.updates@[idx as int].success == l.success,
{
    let u = s2.updates@[idx as int];
    assert(s2.updates@.subrange(0, s0.updates@.len() as int) =~= s0.updates@) by {
        assert forall|j: int| 0 <= j < s0.updates@.len() implies s2.updates@[j] == s0.updates@[j] by {
            assert(s1.updates@[j] == s1.updates@.drop_last()[j]);
        }
    }
    assert(u.logs@.len() == 1);
    assert(!u.logs@[0].success ==> !crate::update::all_success(u.logs@));
    assert(u.logs@[0].success ==> crate::update::all_success(u.logs@));
}

/// A stop-all over `deployments` of which `K` failed to stop ends with one
/// listing log and exactly `K` failed logs, one naming each failed
/// deployment in order, and succeeds exactly when `K` is zero.
pub proof fn stop_all_aggregation(
    old: Seq<crate::update::Update>,
    new: Seq<crate::update::Update>,
    idx: int,
    deployments: Seq<(String, String)>,
    outcomes: Seq<Result<crate::update::Update, CoreError>>,
    now: i64,
)
    requires
        0 <= idx < old.len(),
        old[idx].logs@.len() == 0,
        stop_all_finished(old, new, idx, deployments, outcomes, now),
    ensures
        new[idx].logs@.len() == 1 + stop_failures(deployments.len(), outcomes),
        failed_count(new[idx].logs@) == stop_failures(deployments.len(), outcomes),
        new[idx].success == (stop_failures(deployments.len(), outcomes) == 0),
        new[idx].logs@.subrange(1, new[idx].logs@.len() as int).map_values(|l: Log| log_entry(l))
            == failure_logs(deployments, outcomes, deployments.len()),
{
    assert(failed_count(old[idx].logs@) == 0);
}

/// An action on a deployment whose server the cache last saw unreachable
/// is refused as unreachable (and a refused action writes nothing, sets no
/// flag and opens no update).
pub proof fn unreachable_server_refused(s: State, id: Seq<char>, user: User)
    requires
        s.wf(),
        !s.deployment_is_busy(id),
        s.deployments.spec_get(id) matches Some(d) && permitted(d.permissions@, user, PermissionLevel::Execute)
            && d.server_id@.len() > 0 && s.servers.spec_get(d.server_id@) is Some
            && (s.status_cache.spec_get(d.server_id@) matches Some(c) && c.status == crate::entities::ServerStatus::NotOk),
    ensures
        s.deployment_precheck(id, user) == Err::<(crate::entities::Deployment, crate::entities::Server), CoreError>(
            CoreError::ServerUnreachable,
        ),
{
    let d = s.deployments.spec_get(id).unwrap();
    let srv = s.servers.spec_get(d.server_id@).unwrap();
    assert(srv.id@ == d.server_id@);
}

} // verus!
