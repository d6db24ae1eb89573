use vstd::prelude::*;

use crate::action_state::{
    DeploymentActionState, DeploymentVerb, ServerActionState, ServerVerb,
};
use crate::entities::{
    permitted, Build, CachedStatus, Deployment, DeploymentImage, PermissionLevel, Procedure, Server,
    ServerStatus, User, has_permission,
};
use crate::id_map::IdMap;
use crate::update::{all_success, failed_count, Log, Operation, ResourceTarget, Update, UpdateStatus};

verus! {

/// The kind of resource a permission refusal is about.
#[derive(Clone, Copy, Debug, PartialEq, Eq, Structural)]
pub enum ResourceKind {
    Server,
    Deployment,
    Procedure,
}

/// Why a request was refused before any update was opened.
#[derive(Clone, Debug, PartialEq, Eq)]
pub enum CoreError {
    DeploymentBusy,
    ServerBusy,
    NotFound,
    PermissionDenied(ResourceKind),
    CreateServerDenied,
    NoServerConfigured,
    ServerUnreachable,
    IdTaken,
    NoCachedStatus,
    NoStatusForServer(String),
    StatsUnavailable,
    MissingUpdate,
    PageOutOfRange,
}

/// The message shown to the caller for each refusal.
pub open spec fn message_text(e: CoreError) -> Seq<char> {
    match e {
        CoreError::DeploymentBusy => "deployment busy"@,
        CoreError::ServerBusy => "server busy"@,
        CoreError::NotFound => "did not find resource with the given id"@,
        CoreError::PermissionDenied(ResourceKind::Server) => "user does not have required permissions on this server"@,
        CoreError::PermissionDenied(ResourceKind::Deployment) => "user does not have required permissions on this deployment"@,
        CoreError::PermissionDenied(ResourceKind::Procedure) => "user does not have required permissions on this procedure"@,
        CoreError::CreateServerDenied => "user does not have permissions to add server (not admin)"@,
        CoreError::NoServerConfigured => "deployment has no server configured"@,
        CoreError::ServerUnreachable => "cannot send action when server is unreachable or disabled"@,
        CoreError::IdTaken => "a resource with this id already exists"@,
        CoreError::NoCachedStatus => "did not find cached status for server"@,
        CoreError::NoStatusForServer(id) => "did not find status for server at "@ + id@,
        CoreError::StatsUnavailable => "server not reachable"@,
        CoreError::MissingUpdate => "the update of this action is not in the store"@,
        CoreError::PageOutOfRange => "the requested page lies outside the range of timestamps"@,
    }
}

impl CoreError {
    /// The message shown to the caller.
    pub fn message(&self) -> (r: String)
        ensures
            r@ == message_text(*self),
    {
        match self {
            CoreError::DeploymentBusy => "deployment busy".to_owned(),
            CoreError::ServerBusy => "server busy".to_owned(),
            CoreError::NotFound => "did not find resource with the given id".to_owned(),
            CoreError::PermissionDenied(ResourceKind::Server) => "user does not have required permissions on this server".to_owned(),
            CoreError::PermissionDenied(ResourceKind::Deployment) => "user does not have required permissions on this deployment".to_owned(),
            CoreError::PermissionDenied(ResourceKind::Procedure) => "user does not have required permissions on this procedure".to_owned(),
            CoreError::CreateServerDenied => "user does not have permissions to add server (not admin)".to_owned(),
            CoreError::NoServerConfigured => "deployment has no server configured".to_owned(),
            CoreError::ServerUnreachable => "cannot send action when server is unreachable or disabled".to_owned(),
            CoreError::IdTaken => "a resource with this id already exists".to_owned(),
            CoreError::NoCachedStatus => "did not find cached status for server".to_owned(),
            CoreError::NoStatusForServer(id) => {
                let mut s = "did not find status for server at ".to_owned();
                s.append(id.as_str());
                s
            },
            CoreError::StatsUnavailable => "server not reachable".to_owned(),
            CoreError::MissingUpdate => "the update of this action is not in the store".to_owned(),
            CoreError::PageOutOfRange => "the requested page lies outside the range of timestamps".to_owned(),
        }
    }
}

/// The command handed to a server's agent.
pub enum PeripheryRequest {
    Deploy { deployment: Deployment, stop_signal: Option<String>, stop_time: Option<i32> },
    StartContainer { name: String },
    StopContainer { name: String, signal: String, time: i32 },
    RemoveContainer { name: String, signal: String, time: i32 },
    PruneNetworks,
    PruneImages,
    PruneContainers,
}

/// Which flag an action holds while it is in flight.
#[derive(Clone, Copy, Debug, PartialEq, Eq, Structural)]
pub enum ActionKind {
    Deployment(DeploymentVerb),
    Server(ServerVerb),
}

/// An admitted action: its flag is set and its update is open. The caller
/// sends `request` to the agent of `server_id` and hands the outcome to
/// `State::finish_action`.
pub struct PendingAction {
    pub resource_id: String,
    pub kind: ActionKind,
    pub server_id: String,
    pub update_index: usize,
    pub request: PeripheryRequest,
}

/// The stage name of the log that records an action's agent call.
pub open spec fn stage_of(kind: ActionKind) -> Seq<char> {
    match kind {
        ActionKind::Deployment(DeploymentVerb::Deploying) => "deploy container"@,
        ActionKind::Deployment(DeploymentVerb::Starting) => "start container"@,
        ActionKind::Deployment(DeploymentVerb::Pulling) => "pull repo"@,
        ActionKind::Deployment(DeploymentVerb::Recloning) => "reclone repo"@,
        ActionKind::Deployment(_) => "stop container"@,
        ActionKind::Server(ServerVerb::PruningNetworks) => "prune networks"@,
        ActionKind::Server(ServerVerb::PruningImages) => "prune images"@,
        ActionKind::Server(ServerVerb::PruningContainers) => "prune containers"@,
        ActionKind::Server(ServerVerb::StoppingContainers) => "stopping containers"@,
        ActionKind::Server(ServerVerb::Pinging) => "ping"@,
    }
}

fn stage_name(kind: ActionKind) -> (r: &'static str)
    ensures
        r@ == stage_of(kind),
{
    match kind {
        ActionKind::Deployment(DeploymentVerb::Deploying) => "deploy container",
        ActionKind::Deployment(DeploymentVerb::Starting) => "start container",
        ActionKind::Deployment(DeploymentVerb::Pulling) => "pull repo",
        ActionKind::Deployment(DeploymentVerb::Recloning) => "reclone repo",
        ActionKind::Deployment(_) => "stop container",
        ActionKind::Server(ServerVerb::PruningNetworks) => "prune networks",
        ActionKind::Server(ServerVerb::PruningImages) => "prune images",
        ActionKind::Server(ServerVerb::PruningContainers) => "prune containers",
        ActionKind::Server(ServerVerb::StoppingContainers) => "stopping containers",
        ActionKind::Server(ServerVerb::Pinging) => "ping",
    }
}

/// `new` is `old` with the flag of `kind` set on `id` and one more update,
/// in progress and without logs, at index `idx`.
pub open spec fn action_opened(
    old: &State,
    new: &State,
    id: Seq<char>,
    kind: ActionKind,
    operation: Operation,
    operator: Seq<char>,
    version: Option<String>,
    now: i64,
    idx: usize,
) -> bool {
    &&& new.wf()
    &&& new.servers == old.servers
    &&& new.deployments == old.deployments
    &&& new.builds == old.builds
    &&& new.procedures == old.procedures
    &&& new.status_cache == old.status_cache
    &&& new.flag_of(id, kind)
    &&& new.resource_busy(id, kind)
    &&& forall|k: Seq<char>| k != id ==> #[trigger] new.server_is_busy(k) == old.server_is_busy(k)
    &&& forall|k: Seq<char>| k != id ==> #[trigger] new.deployment_is_busy(k) == old.deployment_is_busy(k)
    &&& idx == old.updates@.len()
    &&& new.updates@.len() == old.updates@.len() + 1
    &&& new.updates@.drop_last() == old.updates@
    &&& new.updates@[idx as int].id == idx as u64
    &&& new.updates@[idx as int].operation == operation
    &&& new.updates@[idx as int].operator@ == operator
    &&& new.updates@[idx as int].start_ts == now
    &&& new.updates@[idx as int].end_ts.is_none()
    &&& new.updates@[idx as int].status == UpdateStatus::InProgress
    &&& new.updates@[idx as int].success
    &&& new.updates@[idx as int].version == version
    &&& new.updates@[idx as int].logs@.len() == 0
}

/// `new` is `old` with the update at `idx` closed: the outcome's log is
/// appended, the record is complete, successful exactly when all its logs
/// are, and ends no earlier than it started.
pub open spec fn action_finished(
    old: Seq<Update>,
    new: Seq<Update>,
    idx: int,
    kind: ActionKind,
    outcome: Result<Log, String>,
    now: i64,
) -> bool {
    let o = old[idx];
    let u = new[idx];
    &&& new.len() == old.len()
    &&& forall|j: int| 0 <= j < old.len() && j != idx ==> #[trigger] new[j] == old[j]
    &&& u.logs@.len() == o.logs@.len() + 1
    &&& u.logs@.drop_last() == o.logs@
    &&& match outcome {
        Ok(log) => u.logs@.last() == log,
        Err(e) => {
            &&& u.logs@.last().stage@ == stage_of(kind)
            &&& u.logs@.last().stderr@ == e@
            &&& !u.logs@.last().success
        },
    }
    &&& u.status == UpdateStatus::Complete
    &&& u.success == all_success(u.logs@)
    &&& u.end_ts == Some(if now < o.start_ts { o.start_ts } else { now })
    &&& u.id == o.id
    &&& u.target == o.target
    &&& u.operation == o.operation
    &&& u.operator == o.operator
    &&& u.start_ts == o.start_ts
    &&& u.version == o.version
}

/// `p` admitted action `verb` on deployment `id`: `new` is `old` with the
/// flag set and one more update, in progress, targeting the deployment.
pub open spec fn deployment_admitted(
    old: &State,
    new: &State,
    id: Seq<char>,
    verb: DeploymentVerb,
    operation: Operation,
    operator: Seq<char>,
    version: Option<String>,
    now: i64,
    p: &PendingAction,
) -> bool {
    &&& action_opened(old, new, id, ActionKind::Deployment(verb), operation, operator, version, now, p.update_index)
    &&& new.updates@[p.update_index as int].target matches ResourceTarget::Deployment(t) && t@ == id
    &&& p.resource_id@ == id
    &&& p.kind == ActionKind::Deployment(verb)
}

/// `p` admitted action `verb` on server `id`: `new` is `old` with the flag
/// set and one more update, in progress, targeting the server.
pub open spec fn server_admitted(
    old: &State,
    new: &State,
    id: Seq<char>,
    verb: ServerVerb,
    operation: Operation,
    operator: Seq<char>,
    now: i64,
    p: &PendingAction,
) -> bool {
    &&& action_opened(old, new, id, ActionKind::Server(verb), operation, operator, None, now, p.update_index)
    &&& new.updates@[p.update_index as int].target matches ResourceTarget::Server(t) && t@ == id
    &&& p.resource_id@ == id
    &&& p.server_id@ == id
    &&& p.kind == ActionKind::Server(verb)
}

/// A stop-all in flight: the server's flag is set and its compound update
/// is open; `deployments` lists the `(id, name)` of each deployment placed
/// on the server.
pub struct StopAllPending {
    pub server_id: String,
    pub deployments: Vec<(String, String)>,
    pub update_index: usize,
}

/// The deployments of `entries` placed on server `sid`, in order.
pub open spec fn on_server(entries: Seq<(String, Deployment)>, sid: Seq<char>) -> Seq<Deployment>
    decreases entries.len(),
{
    if entries.len() == 0 {
        Seq::empty()
    } else if entries.last().1.server_id@ == sid {
        on_server(entries.drop_last(), sid).push(entries.last().1)
    } else {
        on_server(entries.drop_last(), sid)
    }
}

/// How one deployment is shown in a listing: `<name> (<id>)`.
pub open spec fn listed(d: (String, String)) -> Seq<char> {
    d.1@ + " ("@ + d.0@ + ")"@
}

/// The deployments `(id, name)` of `ds`, one per line.
pub open spec fn listing(ds: Seq<(String, String)>) -> Seq<char>
    decreases ds.len(),
{
    if ds.len() == 0 {
        Seq::empty()
    } else if ds.len() == 1 {
        listed(ds[0])
    } else {
        listing(ds.drop_last()) + "\n"@ + listed(ds.last())
    }
}

/// Whether the stop of the `i`-th deployment failed: no outcome, refused,
/// or an unsuccessful update.
pub open spec fn stop_failed(i: int, outcomes: Seq<Result<Update, CoreError>>) -> bool {
    if i >= outcomes.len() {
        true
    } else {
        match outcomes[i] {
            Ok(u) => !u.success,
            Err(_) => true,
        }
    }
}

/// How many of the first `n` stops failed.
pub open spec fn stop_failures(n: nat, outcomes: Seq<Result<Update, CoreError>>) -> nat
    decreases n,
{
    if n == 0 {
        0
    } else {
        stop_failures((n - 1) as nat, outcomes) + if stop_failed(n - 1, outcomes) {
            1nat
        } else {
            0nat
        }
    }
}

/// The error text of the stop of deployment `d`, the `i`-th: it names the
/// deployment, and adds the refusal's message when the stop was refused.
pub open spec fn failure_text(d: (String, String), i: int, outcomes: Seq<Result<Update, CoreError>>) -> Seq<char> {
    "failed to stop container "@ + listed(d) + if i < outcomes.len() && outcomes[i] is Err {
        "\n\n"@ + message_text(outcomes[i]->Err_0)
    } else {
        Seq::<char>::empty()
    }
}

/// The `(stage, error text)` of the failure logs of the first `n` stops, in
/// order: one per failed stop.
pub open spec fn failure_logs(
    ds: Seq<(String, String)>,
    outcomes: Seq<Result<Update, CoreError>>,
    n: nat,
) -> Seq<(Seq<char>, Seq<char>)>
    decreases n,
{
    if n == 0 {
        Seq::empty()
    } else {
        let rest = failure_logs(ds, outcomes, (n - 1) as nat);
        if stop_failed(n - 1, outcomes) {
            rest.push(("stop container failure"@, failure_text(ds[n - 1], n - 1, outcomes)))
        } else {
            rest
        }
    }
}

/// A log as its `(stage, error text)`.
pub open spec fn log_entry(l: Log) -> (Seq<char>, Seq<char>) {
    (l.stage@, l.stderr@)
}

/// `new` is `old` with the compound update at `idx` closed: after the logs
/// it had come one log listing `deployments` and one failed log per failed
/// stop; it is complete and successful exactly when all its logs are.
pub open spec fn stop_all_finished(
    old: Seq<Update>,
    new: Seq<Update>,
    idx: int,
    deployments: Seq<(String, String)>,
    outcomes: Seq<Result<Update, CoreError>>,
    now: i64,
) -> bool {
    let o = old[idx];
    let u = new[idx];
    let k = stop_failures(deployments.len(), outcomes);
    &&& new.len() == old.len()
    &&& forall|j: int| 0 <= j < old.len() && j != idx ==> #[trigger] new[j] == old[j]
    &&& u.logs@.len() == o.logs@.len() + 1 + k
    &&& u.logs@.subrange(0, o.logs@.len() as int) == o.logs@
    &&& u.logs@[o.logs@.len() as int].stage@ == "stopping containers"@
    &&& u.logs@[o.logs@.len() as int].stdout@ == listing(deployments)
    &&& u.logs@[o.logs@.len() as int].success
    &&& failed_count(u.logs@) == failed_count(o.logs@) + k
    &&& u.logs@.subrange(o.logs@.len() as int + 1, u.logs@.len() as int).map_values(|l: Log| log_entry(l))
        == failure_logs(deployments, outcomes, deployments.len())
    &&& forall|j: int| o.logs@.len() + 1 <= j < u.logs@.len() ==> !(#[trigger] u.logs@[j]).success
    &&& u.status == UpdateStatus::Complete
    &&& u.success == (failed_count(u.logs@) == 0)
    &&& u.end_ts == Some(if now < o.start_ts { o.start_ts } else { now })
    &&& u.id == o.id
    &&& u.target == o.target
    &&& u.operation == o.operation
    &&& u.operator == o.operator
    &&& u.start_ts == o.start_ts
}

/// The listing of `deployments`, one `<name> (<id>)` per line.
pub fn listing_of(deployments: &Vec<(String, String)>) -> (r: String)
    ensures
        r@ == listing(deployments@),
{
    let mut out = String::new();
    let mut i: usize = 0;
    while i < deployments.len()
        invariant
            i <= deployments@.len(),
            out@ == listing(deployments@.subrange(0, i as int)),
        decreases deployments@.len() - i,
    {
        assert(deployments@.subrange(0, i + 1).drop_last() =~= deployments@.subrange(0, i as int));
        if i > 0 {
            out.append("\n");
        }
        out.append(deployments[i].1.as_str());
        out.append(" (");
        out.append(deployments[i].0.as_str());
        out.append(")");
        i = i + 1;
    }
    assert(deployments@.subrange(0, deployments@.len() as int) =~= deployments@);
    out
}

/// No log failed exactly when every log succeeded.
pub proof fn lemma_failed_count_zero(logs: Seq<Log>)
    ensures
        (failed_count(logs) == 0) == all_success(logs),
    decreases logs.len(),
{
    if logs.len() > 0 {
        lemma_failed_count_zero(logs.drop_last());
        if all_success(logs) {
            assert forall|i: int| 0 <= i < logs.drop_last().len() implies (#[trigger] logs.drop_last()[i]).success by {
                assert(logs.drop_last()[i] == logs[i]);
            }
        }
        if !all_success(logs.drop_last()) {
            let i = choose|i: int| 0 <= i < logs.drop_last().len() && !(#[trigger] logs.drop_last()[i]).success;
            assert(logs.drop_last()[i] == logs[i]);
        }
        if all_success(logs.drop_last()) && logs.last().success {
            assert forall|i: int| 0 <= i < logs.len() implies (#[trigger] logs[i]).success by {
                if i < logs.len() - 1 {
                    assert(logs.drop_last()[i] == logs[i]);
                }
            }
        }
    }
}

/// The value of `o`, or `d` when it is absent.
pub open spec fn or_default<T>(o: Option<T>, d: T) -> T {
    match o {
        Some(v) => v,
        None => d,
    }
}

/// `r` is deployment `d` with its image taken from build `b` at `version`:
/// the image is `<image_name>:<version>`, the docker account is the
/// build's when `d` has none, and every other field is kept.
pub open spec fn resolved_from_build(r: Deployment, d: Deployment, b: Build, version: String) -> bool {
    &&& r.image matches DeploymentImage::Image { image } && image@ == b.image_name@ + ":"@ + version@
    &&& r.docker_account == if d.docker_account@.len() == 0 {
        b.docker_account
    } else {
        d.docker_account
    }
    &&& r.id == d.id
    &&& r.name == d.name
    &&& r.server_id == d.server_id
    &&& r.termination_signal == d.termination_signal
    &&& r.termination_timeout == d.termination_timeout
    &&& r.extra_args@ == d.extra_args@
    &&& r.permissions@ == d.permissions@
}

/// The coordinator's state: the resource store, the audit log, the status
/// cache and the action flags.
pub struct State {
    pub servers: IdMap<Server>,
    pub deployments: IdMap<Deployment>,
    pub builds: IdMap<Build>,
    pub procedures: IdMap<Procedure>,
    pub updates: Vec<Update>,
    pub status_cache: IdMap<CachedStatus>,
    pub server_action_states: IdMap<ServerActionState>,
    pub deployment_action_states: IdMap<DeploymentActionState>,
}

impl State {
    /// Every table keeps one entry per id, every server is stored under its
    /// own id, and no resource has more than one action flag set.
    pub open spec fn wf(&self) -> bool {
        &&& self.servers.wf()
        &&& self.deployments.wf()
        &&& self.builds.wf()
        &&& self.procedures.wf()
        &&& self.status_cache.wf()
        &&& self.server_action_states.wf()
        &&& self.deployment_action_states.wf()
        &&& forall|id: Seq<char>| #[trigger]
            self.server_action_states.spec_get(id) matches Some(s) ==> s.flags_set() <= 1
        &&& forall|id: Seq<char>| #[trigger]
            self.deployment_action_states.spec_get(id) matches Some(s) ==> s.flags_set() <= 1
        &&& forall|id: Seq<char>| #[trigger] self.servers.spec_get(id) matches Some(s) ==> s.id@ == id
    }

    /// Whether server `id` has an action in flight.
    pub open spec fn server_is_busy(&self, id: Seq<char>) -> bool {
        match self.server_action_states.spec_get(id) {
            Some(s) => s.is_busy(),
            None => false,
        }
    }

    /// Whether deployment `id` has an action in flight.
    pub open spec fn deployment_is_busy(&self, id: Seq<char>) -> bool {
        match self.deployment_action_states.spec_get(id) {
            Some(s) => s.is_busy(),
            None => false,
        }
    }

    /// Whether the flag of action `kind` is set on resource `id`.
    pub open spec fn flag_of(&self, id: Seq<char>, kind: ActionKind) -> bool {
        match kind {
            ActionKind::Deployment(v) => match self.deployment_action_states.spec_get(id) {
                Some(s) => s.flag(v),
                None => false,
            },
            ActionKind::Server(v) => match self.server_action_states.spec_get(id) {
                Some(s) => s.flag(v),
                None => false,
            },
        }
    }

    /// Whether resource `id` of the kind of `kind` has an action in flight.
    pub open spec fn resource_busy(&self, id: Seq<char>, kind: ActionKind) -> bool {
        match kind {
            ActionKind::Deployment(_) => self.deployment_is_busy(id),
            ActionKind::Server(_) => self.server_is_busy(id),
        }
    }

    /// The status of `server`: disabled servers are `Disabled`, enabled ones
    /// carry the cached status, or `NotOk` when none was cached.
    pub open spec fn status_of(&self, server: Server) -> ServerStatus {
        if !server.enabled {
            ServerStatus::Disabled
        } else {
            match self.status_cache.spec_get(server.id@) {
                Some(c) => c.status,
                None => ServerStatus::NotOk,
            }
        }
    }

    /// The same store, cache and audit log.
    pub open spec fn same_data(&self, o: &State) -> bool {
        &&& self.servers == o.servers
        &&& self.deployments == o.deployments
        &&& self.builds == o.builds
        &&& self.procedures == o.procedures
        &&& self.status_cache == o.status_cache
        &&& self.updates@ == o.updates@
    }

    /// The same action flags.
    pub open spec fn same_flags(&self, o: &State) -> bool {
        &&& self.server_action_states == o.server_action_states
        &&& self.deployment_action_states == o.deployment_action_states
    }

    /// An empty coordinator, as at startup.
    pub fn new() -> (r: State)
        ensures
            r.wf(),
            r.updates@.len() == 0,
            forall|id: Seq<char>| !r.server_is_busy(id) && !r.deployment_is_busy(id),
    {
        State {
            servers: IdMap::new(),
            deployments: IdMap::new(),
            builds: IdMap::new(),
            procedures: IdMap::new(),
            updates: Vec::new(),
            status_cache: IdMap::new(),
            server_action_states: IdMap::new(),
            deployment_action_states: IdMap::new(),
        }
    }

    /// Whether server `id` has an action in flight.
    pub fn server_busy(&self, id: &str) -> (r: bool)
        requires
            self.wf(),
        ensures
            r == self.server_is_busy(id@),
    {
        match self.server_action_states.get(id) {
            Some(a) => a.busy(),
            None => false,
        }
    }

    /// Whether deployment `id` has an action in flight.
    pub fn deployment_busy(&self, id: &str) -> (r: bool)
        requires
            self.wf(),
        ensures
            r == self.deployment_is_busy(id@),
    {
        match self.deployment_action_states.get(id) {
            Some(a) => a.busy(),
            None => false,
        }
    }

    /// Sets or clears the flag of `kind` on resource `id`, creating an idle
    /// entry first when there is none.
    fn set_flag(&mut self, id: &str, kind: ActionKind, on: bool)
        requires
            old(self).wf(),
            on ==> !old(self).resource_busy(id@, kind),
        ensures
            final(self).wf(),
            final(self).same_data(old(self)),
            final(self).flag_of(id@, kind) == on,
            !on && old(self).flag_of(id@, kind) ==> !final(self).resource_busy(id@, kind),
            on ==> final(self).resource_busy(id@, kind),
            forall|k: Seq<char>, other: ActionKind|
                (k != id@ || other != kind) && !(other matches ActionKind::Deployment(_) && kind matches ActionKind::Deployment(_) && k == id@) && !(other matches ActionKind::Server(_) && kind matches ActionKind::Server(_) && k == id@)
                    ==> #[trigger] final(self).flag_of(k, other) == old(self).flag_of(k, other),
            forall|k: Seq<char>| k != id@ ==> #[trigger] final(self).server_is_busy(k) == old(self).server_is_busy(k),
            forall|k: Seq<char>| k != id@ ==> #[trigger] final(self).deployment_is_busy(k) == old(self).deployment_is_busy(k),
            kind matches ActionKind::Deployment(_) ==> forall|k: Seq<char>| #[trigger] final(self).server_is_busy(k) == old(self).server_is_busy(k),
            kind matches ActionKind::Server(_) ==> forall|k: Seq<char>| #[trigger] final(self).deployment_is_busy(k) == old(self).deployment_is_busy(k),
    {
        match kind {
            ActionKind::Deployment(v) => {
                let mut s = match self.deployment_action_states.get(id) {
                    Some(s) => s,
                    None => DeploymentActionState::idle(),
                };
                let ghost before = s;
                s.set(v, on);
                assert(s.flag(DeploymentVerb::Deploying) == s.deploying);
                assert(s.flag(DeploymentVerb::Starting) == s.starting);
                assert(s.flag(DeploymentVerb::Stopping) == s.stopping);
                assert(s.flag(DeploymentVerb::Removing) == s.removing);
                assert(s.flag(DeploymentVerb::Pulling) == s.pulling);
                assert(s.flag(DeploymentVerb::Recloning) == s.recloning);
                assert(before.flag(DeploymentVerb::Deploying) == before.deploying);
                assert(before.flag(DeploymentVerb::Starting) == before.starting);
                assert(before.flag(DeploymentVerb::Stopping) == before.stopping);
                assert(before.flag(DeploymentVerb::Removing) == before.removing);
                assert(before.flag(DeploymentVerb::Pulling) == before.pulling);
                assert(before.flag(DeploymentVerb::Recloning) == before.recloning);
                self.deployment_action_states.put(id, s);
            },
            ActionKind::Server(v) => {
                let mut s = match self.server_action_states.get(id) {
                    Some(s) => s,
                    None => ServerActionState::idle(),
                };
                let ghost before = s;
                s.set(v, on);
                assert(s.flag(ServerVerb::Pinging) == s.pinging);
                assert(s.flag(ServerVerb::PruningNetworks) == s.pruning_networks);
                assert(s.flag(ServerVerb::PruningImages) == s.pruning_images);
                assert(s.flag(ServerVerb::PruningContainers) == s.pruning_containers);
                assert(s.flag(ServerVerb::StoppingContainers) == s.stopping_containers);
                assert(before.flag(ServerVerb::Pinging) == before.pinging);
                assert(before.flag(ServerVerb::PruningNetworks) == before.pruning_networks);
                assert(before.flag(ServerVerb::PruningImages) == before.pruning_images);
                assert(before.flag(ServerVerb::PruningContainers) == before.pruning_containers);
                assert(before.flag(ServerVerb::StoppingContainers) == before.stopping_containers);
                self.server_action_states.put(id, s);
            },
        }
    }

    /// The checks a deployment action passes before anything is written, in
    /// order: no action in flight, deployment found, user permitted to
    /// execute, a server configured, that server found and reachable.
    pub open spec fn deployment_precheck(&self, id: Seq<char>, user: User) -> Result<
        (Deployment, Server),
        CoreError,
    > {
        if self.deployment_is_busy(id) {
            Err(CoreError::DeploymentBusy)
        } else {
            match self.deployments.spec_get(id) {
                None => Err(CoreError::NotFound),
                Some(d) => if !permitted(d.permissions@, user, PermissionLevel::Execute) {
                    Err(CoreError::PermissionDenied(ResourceKind::Deployment))
                } else if d.server_id@.len() == 0 {
                    Err(CoreError::NoServerConfigured)
                } else {
                    match self.servers.spec_get(d.server_id@) {
                        None => Err(CoreError::NotFound),
                        Some(srv) => if self.status_of(srv) != ServerStatus::Healthy {
                            Err(CoreError::ServerUnreachable)
                        } else {
                            Ok((d, srv))
                        },
                    }
                },
            }
        }
    }

    /// The status of `server` as actions see it.
    pub fn server_status(&self, server: &Server) -> (r: ServerStatus)
        requires
            self.wf(),
        ensures
            r == self.status_of(*server),
    {
        if !server.enabled {
            return ServerStatus::Disabled;
        }
        match self.status_cache.get_ref(server.id.as_str()) {
            Some(c) => c.status,
            None => ServerStatus::NotOk,
        }
    }

    fn check_deployment(&self, id: &str, user: &User) -> (r: Result<(&Deployment, &Server), CoreError>)
        requires
            self.wf(),
        ensures
            match r {
                Ok((d, srv)) => self.deployment_precheck(id@, *user) == Ok::<(Deployment, Server), CoreError>((*d, *srv)),
                Err(e) => self.deployment_precheck(id@, *user) == Err::<(Deployment, Server), CoreError>(e),
            },
    {
        if self.deployment_busy(id) {
            return Err(CoreError::DeploymentBusy);
        }
        let d = match self.deployments.get_ref(id) {
            Some(d) => d,
            None => {
                return Err(CoreError::NotFound);
            },
        };
        if !has_permission(&d.permissions, user, PermissionLevel::Execute) {
            return Err(CoreError::PermissionDenied(ResourceKind::Deployment));
        }
        if d.server_id.as_str().is_empty() {
            return Err(CoreError::NoServerConfigured);
        }
        let srv = match self.servers.get_ref(d.server_id.as_str()) {
            Some(srv) => srv,
            None => {
                return Err(CoreError::NotFound);
            },
        };
        if self.server_status(srv) != ServerStatus::Healthy {
            return Err(CoreError::ServerUnreachable);
        }
        Ok((d, srv))
    }

    /// Sets the flag of `kind` on `id` and appends the update that records
    /// the action, in progress.
    fn open_action(
        &mut self,
        id: &str,
        kind: ActionKind,
        target: ResourceTarget,
        operation: Operation,
        operator: &String,
        version: Option<String>,
        now: i64,
    ) -> (idx: usize)
        requires
            old(self).wf(),
            !old(self).resource_busy(id@, kind),
        ensures
            action_opened(old(self), final(self), id@, kind, operation, operator@, version, now, idx),
            final(self).updates@[idx as int].target == target,
    {
        self.set_flag(id, kind, true);
        let ghost mid = *self;
        let idx = self.updates.len();
        let mut update = Update::start(target, operation, operator, now);
        update.id = idx as u64;
        update.version = version;
        self.updates.push(update);
        assert(self.updates@.drop_last() =~= old(self).updates@);
        assert(self.server_action_states == mid.server_action_states);
        assert(self.deployment_action_states == mid.deployment_action_states);
        assert forall|k: Seq<char>| k != id@ implies #[trigger] self.server_is_busy(k) == old(self).server_is_busy(k) by {
            assert(mid.server_is_busy(k) == old(self).server_is_busy(k));
        }
        assert forall|k: Seq<char>| k != id@ implies #[trigger] self.deployment_is_busy(k) == old(self).deployment_is_busy(k) by {
            assert(mid.deployment_is_busy(k) == old(self).deployment_is_busy(k));
        }
        idx
    }

    /// Closes an admitted action with the agent's answer: the answer's log,
    /// or an error log holding the failure, is appended to the action's
    /// update, the update is finalized, and the action's flag is cleared on
    /// every path.
    pub fn finish_action(&mut self, pending: PendingAction, outcome: Result<Log, String>, now: i64) -> (r: Result<Update, CoreError>)
        requires
            old(self).wf(),
        ensures
            final(self).wf(),
            !final(self).flag_of(pending.resource_id@, pending.kind),
            old(self).flag_of(pending.resource_id@, pending.kind) ==> !final(self).resource_busy(pending.resource_id@, pending.kind),
            forall|k: Seq<char>| k != pending.resource_id@ ==> #[trigger] final(self).server_is_busy(k) == old(self).server_is_busy(k),
            forall|k: Seq<char>| k != pending.resource_id@ ==> #[trigger] final(self).deployment_is_busy(k) == old(self).deployment_is_busy(k),
            final(self).servers == old(self).servers,
            final(self).deployments == old(self).deployments,
            final(self).builds == old(self).builds,
            final(self).procedures == old(self).procedures,
            final(self).status_cache == old(self).status_cache,
            final(self).updates@.len() == old(self).updates@.len(),
            pending.update_index < old(self).updates@.len() ==> action_finished(
                old(self).updates@,
                final(self).updates@,
                pending.update_index as int,
                pending.kind,
                outcome,
                now,
            ) && (r matches Ok(u) && u.same_as(final(self).updates@[pending.update_index as int])),
            pending.update_index >= old(self).updates@.len() ==> final(self).updates@ == old(self).updates@
                && r == Err::<Update, CoreError>(CoreError::MissingUpdate),
    {
        let PendingAction { resource_id, kind, server_id: _, update_index, request: _ } = pending;
        self.set_flag(resource_id.as_str(), kind, false);
        let ghost mid = *self;
        assert forall|k: Seq<char>| k != resource_id@ implies #[trigger] mid.server_is_busy(k) == old(self).server_is_busy(k) by {}
        assert forall|k: Seq<char>| k != resource_id@ implies #[trigger] mid.deployment_is_busy(k) == old(self).deployment_is_busy(k) by {}
        if update_index >= self.updates.len() {
            return Err(CoreError::MissingUpdate);
        }
        let mut update = self.updates[update_index].duplicate();
        let log = match outcome {
            Ok(log) => log,
            Err(e) => Log::error(stage_name(kind), e, now),
        };
        update.logs.push(log);
        assert(update.logs@.drop_last() =~= old(self).updates@[update_index as int].logs@);
        let end = if now < update.start_ts {
            update.start_ts
        } else {
            now
        };
        update.finalize(end);
        let out = update.duplicate();
        self.updates.set(update_index, update);
        assert(action_finished(old(self).updates@, self.updates@, update_index as int, kind, outcome, now));
        assert forall|k: Seq<char>| k != resource_id@ implies #[trigger] self.server_is_busy(k) == old(self).server_is_busy(k) by {
            assert(mid.server_is_busy(k) == old(self).server_is_busy(k));
        }
        assert forall|k: Seq<char>| k != resource_id@ implies #[trigger] self.deployment_is_busy(k) == old(self).deployment_is_busy(k) by {
            assert(mid.deployment_is_busy(k) == old(self).deployment_is_busy(k));
        }
        Ok(out)
    }

    /// Admits an action on deployment `id` whose checks passed: sets its
    /// flag and opens its update, with the deployment as target.
    fn admit_deployment_action(
        &mut self,
        id: &str,
        verb: DeploymentVerb,
        operation: Operation,
        user: &User,
        version: Option<String>,
        server_id: String,
        request: PeripheryRequest,
        now: i64,
    ) -> (p: PendingAction)
        requires
            old(self).wf(),
            !old(self).deployment_is_busy(id@),
        ensures
            action_opened(
                old(self),
                final(self),
                id@,
                ActionKind::Deployment(verb),
                operation,
                user.id@,
                version,
                now,
                p.update_index,
            ),
            final(self).updates@[p.update_index as int].target matches ResourceTarget::Deployment(t) && t@ == id@,
            p.resource_id@ == id@,
            p.kind == ActionKind::Deployment(verb),
            p.server_id == server_id,
            p.request == request,
    {
        let target = ResourceTarget::Deployment(id.to_owned());
        let idx = self.open_action(id, ActionKind::Deployment(verb), target, operation, &user.id, version, now);
        PendingAction {
            resource_id: id.to_owned(),
            kind: ActionKind::Deployment(verb),
            server_id,
            update_index: idx,
            request,
        }
    }

    /// Starts the container of deployment `deployment_id`, once the checks of
    /// `deployment_precheck` pass.
    pub fn start_container(&mut self, deployment_id: &str, user: &User, now: i64) -> (r: Result<
        PendingAction,
        CoreError,
    >)
        requires
            old(self).wf(),
        ensures
            final(self).wf(),
            match old(self).deployment_precheck(deployment_id@, *user) {
                Err(e) => r == Err::<PendingAction, CoreError>(e) && *final(self) == *old(self),
                Ok((d, _)) => r matches Ok(p) && deployment_admitted(
                    old(self),
                    final(self),
                    deployment_id@,
                    DeploymentVerb::Starting,
                    Operation::StartContainer,
                    user.id@,
                    None,
                    now,
                    &p,
                ) && p.server_id == d.server_id && (p.request matches PeripheryRequest::StartContainer {
                    name,
                } && name == d.name),
            },
    {
        let (d, _srv) = match self.check_deployment(deployment_id, user) {
            Ok(x) => x,
            Err(e) => {
                return Err(e);
            },
        };
        let request = PeripheryRequest::StartContainer { name: d.name.clone() };
        let server_id = d.server_id.clone();
        let p = self.admit_deployment_action(
            deployment_id,
            DeploymentVerb::Starting,
            Operation::StartContainer,
            user,
            None,
            server_id,
            request,
            now,
        );
        Ok(p)
    }

    /// Stops the container of deployment `deployment_id`, with the
    /// deployment's termination signal and timeout unless the request gives
    /// them, once the checks of `deployment_precheck` pass.
    pub fn stop_container(
        &mut self,
        deployment_id: &str,
        signal: Option<String>,
        time: Option<i32>,
        user: &User,
        now: i64,
    ) -> (r: Result<PendingAction, CoreError>)
        requires
            old(self).wf(),
        ensures
            final(self).wf(),
            match old(self).deployment_precheck(deployment_id@, *user) {
                Err(e) => r == Err::<PendingAction, CoreError>(e) && *final(self) == *old(self),
                Ok((d, _)) => r matches Ok(p) && deployment_admitted(
                    old(self),
                    final(self),
                    deployment_id@,
                    DeploymentVerb::Stopping,
                    Operation::StopContainer,
                    user.id@,
                    None,
                    now,
                    &p,
                ) && p.server_id == d.server_id && (p.request matches PeripheryRequest::StopContainer {
                    name,
                    signal: sig,
                    time: t,
                } && name == d.name && sig == or_default(signal, d.termination_signal) && t == or_default(
                    time,
                    d.termination_timeout,
                )),
            },
    {
        let (d, _srv) = match self.check_deployment(deployment_id, user) {
            Ok(x) => x,
            Err(e) => {
                return Err(e);
            },
        };
        let sig = match signal {
            Some(s) => s,
            None => d.termination_signal.clone(),
        };
        let t = match time {
            Some(t) => t,
            None => d.termination_timeout,
        };
        let request = PeripheryRequest::StopContainer { name: d.name.clone(), signal: sig, time: t };
        let server_id = d.server_id.clone();
        let p = self.admit_deployment_action(
            deployment_id,
            DeploymentVerb::Stopping,
            Operation::StopContainer,
            user,
            None,
            server_id,
            request,
            now,
        );
        Ok(p)
    }

    /// Removes the container of deployment `deployment_id`, with the
    /// deployment's termination signal and timeout unless the request gives
    /// them, once the checks of `deployment_precheck` pass.
    pub fn remove_container(
        &mut self,
        deployment_id: &str,
        signal: Option<String>,
        time: Option<i32>,
        user: &User,
        now: i64,
    ) -> (r: Result<PendingAction, CoreError>)
        requires
            old(self).wf(),
        ensures
            final(self).wf(),
            match old(self).deployment_precheck(deployment_id@, *user) {
                Err(e) => r == Err::<PendingAction, CoreError>(e) && *final(self) == *old(self),
                Ok((d, _)) => r matches Ok(p) && deployment_admitted(
                    old(self),
                    final(self),
                    deployment_id@,
                    DeploymentVerb::Removing,
                    Operation::RemoveContainer,
                    user.id@,
                    None,
                    now,
                    &p,
                ) && p.server_id == d.server_id && (p.request matches PeripheryRequest::RemoveContainer {
                    name,
                    signal: sig,
                    time: t,
                } && name == d.name && sig == or_default(signal, d.termination_signal) && t == or_default(
                    time,
                    d.termination_timeout,
                )),
            },
    {
        let (d, _srv) = match self.check_deployment(deployment_id, user) {
            Ok(x) => x,
            Err(e) => {
                return Err(e);
            },
        };
        let sig = match signal {
            Some(s) => s,
            None => d.termination_signal.clone(),
        };
        let t = match time {
            Some(t) => t,
            None => d.termination_timeout,
        };
        let request = PeripheryRequest::RemoveContainer { name: d.name.clone(), signal: sig, time: t };
        let server_id = d.server_id.clone();
        let p = self.admit_deployment_action(
            deployment_id,
            DeploymentVerb::Removing,
            Operation::RemoveContainer,
            user,
            None,
            server_id,
            request,
            now,
        );
        Ok(p)
    }

    /// Deploys deployment `deployment_id`, once the checks of
    /// `deployment_precheck` pass. An image taken from a build is resolved
    /// first: to `<image_name>:<version>`, with the build's version unless
    /// the deployment names one, and with the build's docker account when
    /// the deployment has none; the update records the version.
    pub fn deploy(
        &mut self,
        deployment_id: &str,
        stop_signal: Option<String>,
        stop_time: Option<i32>,
        user: &User,
        now: i64,
    ) -> (r: Result<PendingAction, CoreError>)
        requires
            old(self).wf(),
        ensures
            final(self).wf(),
            match old(self).deployment_precheck(deployment_id@, *user) {
                Err(e) => r == Err::<PendingAction, CoreError>(e) && *final(self) == *old(self),
                Ok((d, _)) => match d.image {
                    DeploymentImage::Image { .. } => r matches Ok(p) && deployment_admitted(
                        old(self),
                        final(self),
                        deployment_id@,
                        DeploymentVerb::Deploying,
                        Operation::DeployContainer,
                        user.id@,
                        None,
                        now,
                        &p,
                    ) && p.server_id == d.server_id && (p.request matches PeripheryRequest::Deploy {
                        deployment,
                        stop_signal: ss,
                        stop_time: st,
                    } && deployment.same_as(d) && ss == stop_signal && st == stop_time),
                    DeploymentImage::Build { build_id, version } => match old(self).builds.spec_get(
                        build_id@,
                    ) {
                        None => r == Err::<PendingAction, CoreError>(CoreError::NotFound) && *final(self)
                            == *old(self),
                        Some(b) => r matches Ok(p) && deployment_admitted(
                            old(self),
                            final(self),
                            deployment_id@,
                            DeploymentVerb::Deploying,
                            Operation::DeployContainer,
                            user.id@,
                            Some(or_default(version, b.version)),
                            now,
                            &p,
                        ) && p.server_id == d.server_id && (p.request matches PeripheryRequest::Deploy {
                            deployment,
                            stop_signal: ss,
                            stop_time: st,
                        } && resolved_from_build(deployment, d, b, or_default(version, b.version))
                            && ss == stop_signal && st == stop_time),
                    },
                },
            },
    {
        let (d, _srv) = match self.check_deployment(deployment_id, user) {
            Ok(x) => x,
            Err(e) => {
                return Err(e);
            },
        };
        let mut dep = d.duplicate();
        let version: Option<String> = match &d.image {
            DeploymentImage::Build { build_id, version } => {
                let b = match self.builds.get_ref(build_id.as_str()) {
                    Some(b) => b,
                    None => {
                        return Err(CoreError::NotFound);
                    },
                };
                let ver = match version {
                    Some(v) => v.clone(),
                    None => b.version.clone(),
                };
                let mut image = b.image_name.clone();
                image.append(":");
                image.append(ver.as_str());
                dep.image = DeploymentImage::Image { image };
                if dep.docker_account.as_str().is_empty() {
                    dep.docker_account = b.docker_account.clone();
                }
                Some(ver)
            },
            DeploymentImage::Image { .. } => None,
        };
        let server_id = d.server_id.clone();
        let request = PeripheryRequest::Deploy { deployment: dep, stop_signal, stop_time };
        let p = self.admit_deployment_action(
            deployment_id,
            DeploymentVerb::Deploying,
            Operation::DeployContainer,
            user,
            version,
            server_id,
            request,
            now,
        );
        Ok(p)
    }

    /// The checks a server action passes before anything is written, in
    /// order: no action in flight, server found, user permitted to execute,
    /// server reachable.
    pub open spec fn server_precheck(&self, id: Seq<char>, user: User) -> Result<Server, CoreError> {
        if self.server_is_busy(id) {
            Err(CoreError::ServerBusy)
        } else {
            match self.servers.spec_get(id) {
                None => Err(CoreError::NotFound),
                Some(srv) => if !permitted(srv.permissions@, user, PermissionLevel::Execute) {
                    Err(CoreError::PermissionDenied(ResourceKind::Server))
                } else if self.status_of(srv) != ServerStatus::Healthy {
                    Err(CoreError::ServerUnreachable)
                } else {
                    Ok(srv)
                },
            }
        }
    }

    fn check_server(&self, id: &str, user: &User) -> (r: Result<&Server, CoreError>)
        requires
            self.wf(),
        ensures
            match r {
                Ok(srv) => self.server_precheck(id@, *user) == Ok::<Server, CoreError>(*srv),
                Err(e) => self.server_precheck(id@, *user) == Err::<Server, CoreError>(e),
            },
    {
        if self.server_busy(id) {
            return Err(CoreError::ServerBusy);
        }
        let srv = match self.servers.get_ref(id) {
            Some(srv) => srv,
            None => {
                return Err(CoreError::NotFound);
            },
        };
        if !has_permission(&srv.permissions, user, PermissionLevel::Execute) {
            return Err(CoreError::PermissionDenied(ResourceKind::Server));
        }
        if self.server_status(srv) != ServerStatus::Healthy {
            return Err(CoreError::ServerUnreachable);
        }
        Ok(srv)
    }

    /// Admits action `verb` on server `id` once the checks of
    /// `server_precheck` pass: sets its flag and opens its update, with the
    /// server as target.
    fn admit_server_action(
        &mut self,
        id: &str,
        verb: ServerVerb,
        operation: Operation,
        request: PeripheryRequest,
        user: &User,
        now: i64,
    ) -> (r: Result<PendingAction, CoreError>)
        requires
            old(self).wf(),
        ensures
            final(self).wf(),
            match old(self).server_precheck(id@, *user) {
                Err(e) => r == Err::<PendingAction, CoreError>(e) && *final(self) == *old(self),
                Ok(_) => r matches Ok(p) && server_admitted(
                    old(self),
                    final(self),
                    id@,
                    verb,
                    operation,
                    user.id@,
                    now,
                    &p,
                ) && p.request == request,
            },
    {
        match self.check_server(id, user) {
            Ok(_) => {},
            Err(e) => {
                return Err(e);
            },
        }
        let target = ResourceTarget::Server(id.to_owned());
        let idx = self.open_action(id, ActionKind::Server(verb), target, operation, &user.id, None, now);
        Ok(
            PendingAction {
                resource_id: id.to_owned(),
                kind: ActionKind::Server(verb),
                server_id: id.to_owned(),
                update_index: idx,
                request,
            },
        )
    }

    /// Prunes unused networks on server `server_id`.
    pub fn prune_networks(&mut self, server_id: &str, user: &User, now: i64) -> (r: Result<
        PendingAction,
        CoreError,
    >)
        requires
            old(self).wf(),
        ensures
            final(self).wf(),
            match old(self).server_precheck(server_id@, *user) {
                Err(e) => r == Err::<PendingAction, CoreError>(e) && *final(self) == *old(self),
                Ok(_) => r matches Ok(p) && server_admitted(
                    old(self),
                    final(self),
                    server_id@,
                    ServerVerb::PruningNetworks,
                    Operation::PruneNetworksServer,
                    user.id@,
                    now,
                    &p,
                ) && p.request == PeripheryRequest::PruneNetworks,
            },
    {
        self.admit_server_action(
            server_id,
            ServerVerb::PruningNetworks,
            Operation::PruneNetworksServer,
            PeripheryRequest::PruneNetworks,
            user,
            now,
        )
    }

    /// Prunes unused images on server `server_id`.
    pub fn prune_images(&mut self, server_id: &str, user: &User, now: i64) -> (r: Result<
        PendingAction,
        CoreError,
    >)
        requires
            old(self).wf(),
        ensures
            final(self).wf(),
            match old(self).server_precheck(server_id@, *user) {
                Err(e) => r == Err::<PendingAction, CoreError>(e) && *final(self) == *old(self),
                Ok(_) => r matches Ok(p) && server_admitted(
                    old(self),
                    final(self),
                    server_id@,
                    ServerVerb::PruningImages,
                    Operation::PruneImagesServer,
                    user.id@,
                    now,
                    &p,
                ) && p.request == PeripheryRequest::PruneImages,
            },
    {
        self.admit_server_action(
            server_id,
            ServerVerb::PruningImages,
            Operation::PruneImagesServer,
            PeripheryRequest::PruneImages,
            user,
            now,
        )
    }

    /// Prunes stopped containers on server `server_id`.
    pub fn prune_containers(&mut self, server_id: &str, user: &User, now: i64) -> (r: Result<
        PendingAction,
        CoreError,
    >)
        requires
            old(self).wf(),
        ensures
            final(self).wf(),
            match old(self).server_precheck(server_id@, *user) {
                Err(e) => r == Err::<PendingAction, CoreError>(e) && *final(self) == *old(self),
                Ok(_) => r matches Ok(p) && server_admitted(
                    old(self),
                    final(self),
                    server_id@,
                    ServerVerb::PruningContainers,
                    Operation::PruneContainersServer,
                    user.id@,
                    now,
                    &p,
                ) && p.request == PeripheryRequest::PruneContainers,
            },
    {
        self.admit_server_action(
            server_id,
            ServerVerb::PruningContainers,
            Operation::PruneContainersServer,
            PeripheryRequest::PruneContainers,
            user,
            now,
        )
    }

    /// The deployments of `entries` placed on server `sid`, in store order,
    /// as `(id, name)` pairs.
    fn deployments_on_server(entries: &Vec<(String, Deployment)>, sid: &String) -> (r: Vec<(String, String)>)
        ensures
            r@.len() == on_server(entries@, sid@).len(),
            forall|i: int| 0 <= i < r@.len() ==> (#[trigger] r@[i]).0 == on_server(entries@, sid@)[i].id
                && r@[i].1 == on_server(entries@, sid@)[i].name,
    {
        let mut out: Vec<(String, String)> = Vec::new();
        let mut i: usize = 0;
        while i < entries.len()
            invariant
                i <= entries@.len(),
                out@.len() == on_server(entries@.subrange(0, i as int), sid@).len(),
                forall|j: int| 0 <= j < out@.len() ==> (#[trigger] out@[j]).0 == on_server(entries@.subrange(0, i as int), sid@)[j].id
                    && out@[j].1 == on_server(entries@.subrange(0, i as int), sid@)[j].name,
            decreases entries@.len() - i,
        {
            let ghost prev = on_server(entries@.subrange(0, i as int), sid@);
            assert(entries@.subrange(0, i + 1).drop_last() =~= entries@.subrange(0, i as int));
            let d = &entries[i].1;
            if d.server_id == *sid {
                out.push((d.id.clone(), d.name.clone()));
            }
            i = i + 1;
            proof {
                let now_s = on_server(entries@.subrange(0, i as int), sid@);
                assert forall|j: int| 0 <= j < out@.len() implies (#[trigger] out@[j]).0 == now_s[j].id
                    && out@[j].1 == now_s[j].name by {
                    if j < prev.len() {
                        assert(now_s[j] == prev[j]);
                    }
                }
            }
        }
        assert(entries@.subrange(0, entries@.len() as int) =~= entries@);
        out
    }

    /// Begins stopping every container on server `server_id`, once the
    /// checks of `server_precheck` pass: sets the server's flag, opens the
    /// compound update, and lists the deployments placed on the server. The
    /// caller stops each of them (`stop_container`, `finish_action`) and
    /// hands the outcomes to `finish_stop_all_containers`.
    pub fn stop_all_containers(&mut self, server_id: &str, user: &User, now: i64) -> (r: Result<
        StopAllPending,
        CoreError,
    >)
        requires
            old(self).wf(),
        ensures
            final(self).wf(),
            match old(self).server_precheck(server_id@, *user) {
                Err(e) => r == Err::<StopAllPending, CoreError>(e) && *final(self) == *old(self),
                Ok(_) => r matches Ok(p) && p.server_id@ == server_id@ && action_opened(
                    old(self),
                    final(self),
                    server_id@,
                    ActionKind::Server(ServerVerb::StoppingContainers),
                    Operation::StopAllContainers,
                    user.id@,
                    None,
                    now,
                    p.update_index,
                ) && (final(self).updates@[p.update_index as int].target matches ResourceTarget::Server(t)
                    && t@ == server_id@) && p.deployments@.len() == on_server(
                    old(self).deployments.entries@,
                    server_id@,
                ).len() && forall|i: int|
                    0 <= i < p.deployments@.len() ==> (#[trigger] p.deployments@[i]).0 == on_server(
                        old(self).deployments.entries@,
                        server_id@,
                    )[i].id && p.deployments@[i].1 == on_server(
                        old(self).deployments.entries@,
                        server_id@,
                    )[i].name,
            },
    {
        match self.check_server(server_id, user) {
            Ok(_) => {},
            Err(e) => {
                return Err(e);
            },
        }
        let sid = server_id.to_owned();
        let deployments = State::deployments_on_server(&self.deployments.entries, &sid);
        let target = ResourceTarget::Server(server_id.to_owned());
        let idx = self.open_action(
            server_id,
            ActionKind::Server(ServerVerb::StoppingContainers),
            target,
            Operation::StopAllContainers,
            &user.id,
            None,
            now,
        );
        Ok(StopAllPending { server_id: sid, deployments, update_index: idx })
    }

    /// Closes a stop-all: the compound update gets one log listing every
    /// deployment, then one error log per deployment whose stop failed
    /// (refused, unsuccessful, or without an outcome), and is finalized; the
    /// server's flag is cleared on every path.
    pub fn finish_stop_all_containers(
        &mut self,
        pending: StopAllPending,
        outcomes: Vec<Result<Update, CoreError>>,
        now: i64,
    ) -> (r: Result<Update, CoreError>)
        requires
            old(self).wf(),
        ensures
            final(self).wf(),
            !final(self).flag_of(pending.server_id@, ActionKind::Server(ServerVerb::StoppingContainers)),
            old(self).flag_of(pending.server_id@, ActionKind::Server(ServerVerb::StoppingContainers))
                ==> !final(self).server_is_busy(pending.server_id@),
            forall|k: Seq<char>| k != pending.server_id@ ==> #[trigger] final(self).server_is_busy(k) == old(self).server_is_busy(k),
            forall|k: Seq<char>| #[trigger] final(self).deployment_is_busy(k) == old(self).deployment_is_busy(k),
            final(self).servers == old(self).servers,
            final(self).deployments == old(self).deployments,
            final(self).builds == old(self).builds,
            final(self).procedures == old(self).procedures,
            final(self).status_cache == old(self).status_cache,
            final(self).updates@.len() == old(self).updates@.len(),
            pending.update_index < old(self).updates@.len() ==> stop_all_finished(
                old(self).updates@,
                final(self).updates@,
                pending.update_index as int,
                pending.deployments@,
                outcomes@,
                now,
            ) && (r matches Ok(u) && u.same_as(final(self).updates@[pending.update_index as int])),
            pending.update_index >= old(self).updates@.len() ==> final(self).updates@ == old(self).updates@
                && r == Err::<Update, CoreError>(CoreError::MissingUpdate),
    {
        let StopAllPending { server_id, deployments, update_index } = pending;
        self.set_flag(server_id.as_str(), ActionKind::Server(ServerVerb::StoppingContainers), false);
        let ghost mid = *self;
        if update_index >= self.updates.len() {
            return Err(CoreError::MissingUpdate);
        }
        let mut update = self.updates[update_index].duplicate();
        let ghost base = update.logs@;
        let names = listing_of(&deployments);
        update.push_simple_log("stopping containers", names, now);
        let mut i: usize = 0;
        while i < deployments.len()
            invariant
                i <= deployments@.len(),
                update.logs@.len() == base.len() + 1 + stop_failures(i as nat, outcomes@),
                update.logs@.subrange(0, base.len() as int) == base,
                failed_count(update.logs@) == failed_count(base) + stop_failures(i as nat, outcomes@),
                update.logs@[base.len() as int].success,
                update.logs@[base.len() as int].stage@ == "stopping containers"@,
                update.logs@[base.len() as int].stdout@ == listing(deployments@),
                update.logs@.subrange(base.len() as int + 1, update.logs@.len() as int).map_values(|l: Log| log_entry(l))
                    == failure_logs(deployments@, outcomes@, i as nat),
                forall|j: int| base.len() + 1 <= j < update.logs@.len() ==> !(#[trigger] update.logs@[j]).success,
                update.id == old(self).updates@[update_index as int].id,
                update.target == old(self).updates@[update_index as int].target,
                update.operation == old(self).updates@[update_index as int].operation,
                update.operator == old(self).updates@[update_index as int].operator,
                update.start_ts == old(self).updates@[update_index as int].start_ts,
                update.version == old(self).updates@[update_index as int].version,
            decreases deployments@.len() - i,
        {
            let failed = if i >= outcomes.len() {
                true
            } else {
                match &outcomes[i] {
                    Ok(u) => !u.success,
                    Err(_) => true,
                }
            };
            let ghost before = update.logs@;
            if failed {
                let mut msg = "failed to stop container ".to_owned();
                msg.append(deployments[i].1.as_str());
                msg.append(" (");
                msg.append(deployments[i].0.as_str());
                msg.append(")");
                if i < outcomes.len() {
                    if let Err(e) = &outcomes[i] {
                        msg.append("\n\n");
                        msg.append(e.message().as_str());
                    }
                }
                assert(msg@ =~= failure_text(deployments@[i as int], i as int, outcomes@));
                update.push_error_log("stop container failure", msg, now);
                assert(update.logs@.drop_last() == before);
                proof {
                    let b1 = base.len() as int + 1;
                    assert(update.logs@.subrange(b1, update.logs@.len() as int) =~= before.subrange(b1, before.len() as int).push(update.logs@.last()));
                    assert(update.logs@.subrange(b1, update.logs@.len() as int).map_values(|l: Log| log_entry(l))
                        =~= before.subrange(b1, before.len() as int).map_values(|l: Log| log_entry(l)).push(log_entry(update.logs@.last())));
                    assert forall|j: int| b1 <= j < update.logs@.len() implies !(#[trigger] update.logs@[j]).success by {
                        if j < before.len() {
                            assert(update.logs@[j] == before[j]);
                        }
                    }
                }
            }
            proof {
                assert(stop_failures((i + 1) as nat, outcomes@) == stop_failures(i as nat, outcomes@) + if stop_failed(i as int, outcomes@) { 1nat } else { 0nat });
                if failed {
                    assert(update.logs@.subrange(0, base.len() as int) =~= before.subrange(0, base.len() as int));
                    assert(update.logs@[base.len() as int] == before[base.len() as int]);
                }
            }
            i = i + 1;
        }
        proof {
            lemma_failed_count_zero(update.logs@);
        }
        let end = if now < update.start_ts {
            update.start_ts
        } else {
            now
        };
        update.finalize(end);
        let out = update.duplicate();
        self.updates.set(update_index, update);
        assert forall|k: Seq<char>| k != server_id@ implies #[trigger] self.server_is_busy(k) == old(self).server_is_busy(k) by {
            assert(mid.server_is_busy(k) == old(self).server_is_busy(k));
        }
        assert forall|k: Seq<char>| #[trigger] self.deployment_is_busy(k) == old(self).deployment_is_busy(k) by {
            assert(mid.deployment_is_busy(k) == old(self).deployment_is_busy(k));
        }
        Ok(out)
    }
}

} // verus!
