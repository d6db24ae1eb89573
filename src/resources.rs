use vstd::prelude::*;

use crate::entities::{
    clone_permissions, has_permission, permitted, PermissionLevel, Procedure, Server,
};
use crate::state::{CoreError, ResourceKind, State};
use crate::update::{Log, Operation, ResourceTarget, Update, UpdateStatus};

verus! {

/// `new` is `old` with one more update appended: complete, successful,
/// opened and closed at `now`, by `operator`, with `logs`.
pub open spec fn recorded(old: &State, new: &State, operation: Operation, operator: Seq<char>, now: i64) -> bool {
    let u = new.updates@.last();
    &&& new.updates@.len() == old.updates@.len() + 1
    &&& new.updates@.drop_last() == old.updates@
    &&& u.id == old.updates@.len()
    &&& u.operation == operation
    &&& u.operator@ == operator
    &&& u.start_ts == now
    &&& u.end_ts == Some(now)
    &&& u.status == UpdateStatus::Complete
    &&& u.success
}

impl State {
    /// Appends a finished, successful update and returns its index.
    fn record(
        &mut self,
        target: ResourceTarget,
        operation: Operation,
        operator: &String,
        log: Option<Log>,
        now: i64,
    ) -> (idx: usize)
        requires
            old(self).wf(),
        ensures
            final(self).wf(),
            recorded(old(self), final(self), operation, operator@, now),
            final(self).updates@.last().target == target,
            final(self).updates@.last().logs@ == match log {
                Some(l) => seq![l],
                None => Seq::<Log>::empty(),
            },
            idx == old(self).updates@.len(),
            final(self).servers == old(self).servers,
            final(self).deployments == old(self).deployments,
            final(self).builds == old(self).builds,
            final(self).procedures == old(self).procedures,
            final(self).status_cache == old(self).status_cache,
            final(self).server_action_states == old(self).server_action_states,
            final(self).deployment_action_states == old(self).deployment_action_states,
    {
        let idx = self.updates.len();
        let mut logs: Vec<Log> = Vec::new();
        match log {
            Some(l) => {
                logs.push(l);
            },
            None => {},
        }
        let update = Update {
            id: idx as u64,
            target,
            operation,
            operator: operator.clone(),
            start_ts: now,
            end_ts: Some(now),
            status: UpdateStatus::Complete,
            success: true,
            version: None,
            logs,
        };
        self.updates.push(update);
        assert(self.updates@.drop_last() =~= old(self).updates@);
        assert(self.updates@.last().logs@ =~= match log {
            Some(l) => seq![l],
            None => Seq::<Log>::empty(),
        });
        idx
    }

    /// Server `server_id`, when `user` holds `level` on it.
    pub fn get_server_check_permissions(
        &self,
        server_id: &str,
        user: &crate::entities::User,
        level: PermissionLevel,
    ) -> (r: Result<Server, CoreError>)
        requires
            self.wf(),
        ensures
            match self.servers.spec_get(server_id@) {
                None => r == Err::<Server, CoreError>(CoreError::NotFound),
                Some(s) => if permitted(s.permissions@, *user, level) {
                    r matches Ok(x) && x.same_as(s)
                } else {
                    r == Err::<Server, CoreError>(CoreError::PermissionDenied(ResourceKind::Server))
                },
            },
    {
        let s = match self.servers.get_ref(server_id) {
            Some(s) => s,
            None => {
                return Err(CoreError::NotFound);
            },
        };
        if has_permission(&s.permissions, user, level) {
            Ok(s.duplicate())
        } else {
            Err(CoreError::PermissionDenied(ResourceKind::Server))
        }
    }

    /// Adds a server named `name` at `address` under the fresh id `id`,
    /// with `user` holding `Update` on it, and records the creation. Only
    /// admins and users allowed to create servers may.
    pub fn create_server(
        &mut self,
        id: String,
        name: &str,
        address: String,
        user: &crate::entities::User,
        now: i64,
    ) -> (r: Result<Server, CoreError>)
        requires
            old(self).wf(),
        ensures
            final(self).wf(),
            !user.is_admin && !user.create_server_permissions ==> r == Err::<Server, CoreError>(
                CoreError::CreateServerDenied,
            ) && *final(self) == *old(self),
            (user.is_admin || user.create_server_permissions) && old(self).servers.spec_get(id@) is Some
                ==> r == Err::<Server, CoreError>(CoreError::IdTaken) && *final(self) == *old(self),
            (user.is_admin || user.create_server_permissions) && old(self).servers.spec_get(id@) is None
                ==> {
                &&& r matches Ok(s) && final(self).servers.spec_get(id@) matches Some(t) && s.same_as(t)
                    && s.id@ == id@ && s.name@ == name@ && s.address == address && s.enabled
                    && s.permissions@.len() == 1 && s.permissions@[0].0@ == user.id@
                    && s.permissions@[0].1 == PermissionLevel::Update && s.created_at == now
                    && s.updated_at == now
                &&& forall|k: Seq<char>| k != id@ ==> #[trigger] final(self).servers.spec_get(k) == old(self).servers.spec_get(k)
                &&& recorded(old(self), final(self), Operation::CreateServer, user.id@, now)
                &&& final(self).updates@.last().target matches ResourceTarget::Server(t) && t@ == id@
                &&& final(self).same_flags(old(self))
            },
    {
        if !user.is_admin && !user.create_server_permissions {
            return Err(CoreError::CreateServerDenied);
        }
        if self.servers.get_ref(id.as_str()).is_some() {
            return Err(CoreError::IdTaken);
        }
        let mut permissions: Vec<(String, PermissionLevel)> = Vec::new();
        permissions.push((user.id.clone(), PermissionLevel::Update));
        let server = Server {
            id: id.clone(),
            name: name.to_owned(),
            address,
            enabled: true,
            region: None,
            permissions,
            created_at: now,
            updated_at: now,
        };
        let out = server.duplicate();
        self.servers.put(id.as_str(), server);
        self.record(ResourceTarget::Server(id), Operation::CreateServer, &user.id, None, now);
        Ok(out)
    }

    /// Removes server `server_id` and records the deletion, when no action
    /// is in flight on it and `user` holds `Update` on it.
    pub fn delete_server(&mut self, server_id: &str, user: &crate::entities::User, now: i64) -> (r: Result<
        Server,
        CoreError,
    >)
        requires
            old(self).wf(),
        ensures
            final(self).wf(),
            old(self).server_is_busy(server_id@) ==> r == Err::<Server, CoreError>(CoreError::ServerBusy)
                && *final(self) == *old(self),
            !old(self).server_is_busy(server_id@) ==> match old(self).servers.spec_get(server_id@) {
                None => r == Err::<Server, CoreError>(CoreError::NotFound) && *final(self) == *old(self),
                Some(s) => if !permitted(s.permissions@, *user, PermissionLevel::Update) {
                    r == Err::<Server, CoreError>(CoreError::PermissionDenied(ResourceKind::Server)) && *final(self) == *old(self)
                } else {
                    &&& r matches Ok(x) && x.same_as(s)
                    &&& final(self).servers.spec_get(server_id@) is None
                    &&& forall|k: Seq<char>| k != server_id@ ==> #[trigger] final(self).servers.spec_get(k) == old(self).servers.spec_get(k)
                    &&& recorded(old(self), final(self), Operation::DeleteServer, user.id@, now)
                    &&& final(self).updates@.last().target == ResourceTarget::System
                    &&& final(self).updates@.last().logs@.len() == 1
                    &&& final(self).updates@.last().logs@[0].stage@ == "delete server"@
                    &&& final(self).updates@.last().logs@[0].stdout@ == "deleted server "@ + s.name@
                    &&& final(self).updates@.last().logs@[0].success
                    &&& final(self).updates@.last().logs@[0].stderr@.len() == 0
                    &&& final(self).same_flags(old(self))
                },
            },
    {
        if self.server_busy(server_id) {
            return Err(CoreError::ServerBusy);
        }
        let server = self.get_server_check_permissions(server_id, user, PermissionLevel::Update)?;
        self.servers.remove(server_id);
        let mut msg = "deleted server ".to_owned();
        msg.append(server.name.as_str());
        let log = Log::simple("delete server", msg, now);
        self.record(ResourceTarget::System, Operation::DeleteServer, &user.id, Some(log), now);
        Ok(server)
    }

    /// Replaces server `new_server.id` with `new_server`, keeping its
    /// permissions and creation time and stamping the update time, and
    /// records the change, when no action is in flight on it and `user`
    /// holds `Update` on it.
    pub fn update_server(&mut self, new_server: Server, user: &crate::entities::User, now: i64) -> (r:
        Result<Server, CoreError>)
        requires
            old(self).wf(),
        ensures
            final(self).wf(),
            old(self).server_is_busy(new_server.id@) ==> r == Err::<Server, CoreError>(
                CoreError::ServerBusy,
            ) && *final(self) == *old(self),
            !old(self).server_is_busy(new_server.id@) ==> match old(self).servers.spec_get(new_server.id@) {
                None => r == Err::<Server, CoreError>(CoreError::NotFound) && *final(self) == *old(self),
                Some(s) => if !permitted(s.permissions@, *user, PermissionLevel::Update) {
                    r == Err::<Server, CoreError>(CoreError::PermissionDenied(ResourceKind::Server)) && *final(self) == *old(self)
                } else {
                    &&& r matches Ok(x) && final(self).servers.spec_get(new_server.id@) matches Some(t)
                        && x.same_as(t) && x.id == new_server.id && x.name == new_server.name
                        && x.address == new_server.address && x.enabled == new_server.enabled
                        && x.region == new_server.region && x.permissions@ == s.permissions@
                        && x.created_at == s.created_at && x.updated_at == now
                    &&& forall|k: Seq<char>| k != new_server.id@ ==> #[trigger] final(self).servers.spec_get(k) == old(self).servers.spec_get(k)
                    &&& recorded(old(self), final(self), Operation::UpdateServer, user.id@, now)
                    &&& final(self).updates@.last().target matches ResourceTarget::Server(t) && t@ == new_server.id@
                    &&& final(self).same_flags(old(self))
                },
            },
    {
        let mut new_server = new_server;
        if self.server_busy(new_server.id.as_str()) {
            return Err(CoreError::ServerBusy);
        }
        let current = self.get_server_check_permissions(new_server.id.as_str(), user, PermissionLevel::Update)?;
        new_server.permissions = current.permissions;
        new_server.created_at = current.created_at;
        new_server.updated_at = now;
        let changes = server_changes(&current.name, &current.address, current.enabled, &new_server);
        let log = Log::simple("server update", changes, now);
        let out = new_server.duplicate();
        let id = new_server.id.clone();
        self.servers.put(id.as_str(), new_server);
        self.record(ResourceTarget::Server(id), Operation::UpdateServer, &user.id, Some(log), now);
        Ok(out)
    }

    /// Renames server `id` to `name`, as `update_server` would.
    pub fn rename_server(&mut self, id: &str, name: &str, user: &crate::entities::User, now: i64) -> (r:
        Result<Server, CoreError>)
        requires
            old(self).wf(),
        ensures
            final(self).wf(),
            old(self).server_is_busy(id@) ==> r == Err::<Server, CoreError>(CoreError::ServerBusy),
            !old(self).server_is_busy(id@) && old(self).servers.spec_get(id@) is None ==> r == Err::<
                Server,
                CoreError,
            >(CoreError::NotFound),
            !old(self).server_is_busy(id@) ==> (old(self).servers.spec_get(id@) matches Some(s) ==> (
            permitted(s.permissions@, *user, PermissionLevel::Update) <==> r is Ok)),
            r matches Ok(x) ==> x.name@ == name@ && x.id@ == id@,
            r is Err ==> *final(self) == *old(self),
            r is Ok ==> (old(self).servers.spec_get(id@) matches Some(s) && final(self).servers.spec_get(id@) matches Some(t)
                && t.name@ == name@ && t.address == s.address && t.enabled == s.enabled && t.region == s.region
                && t.permissions@ == s.permissions@ && t.created_at == s.created_at && t.updated_at == now),
            r is Ok ==> forall|k: Seq<char>| k != id@ ==> #[trigger] final(self).servers.spec_get(k) == old(self).servers.spec_get(k),
            r is Ok ==> recorded(old(self), final(self), Operation::UpdateServer, user.id@, now)
                && (final(self).updates@.last().target matches ResourceTarget::Server(t) && t@ == id@),
    {
        let current = match self.servers.get_ref(id) {
            Some(s) => s.duplicate(),
            None => {
                if self.server_busy(id) {
                    return Err(CoreError::ServerBusy);
                }
                return Err(CoreError::NotFound);
            },
        };
        let renamed = Server {
            id: id.to_owned(),
            name: name.to_owned(),
            address: current.address,
            enabled: current.enabled,
            region: current.region,
            permissions: current.permissions,
            created_at: current.created_at,
            updated_at: current.updated_at,
        };
        self.update_server(renamed, user, now)
    }

    /// Creates server `server` in two steps, as `create_server` then
    /// `update_server` with the rest of its fields.
    pub fn create_full_server(&mut self, server: Server, user: &crate::entities::User, now: i64) -> (r: Result<
        Server,
        CoreError,
    >)
        requires
            old(self).wf(),
        ensures
            final(self).wf(),
            !user.is_admin && !user.create_server_permissions ==> r == Err::<Server, CoreError>(
                CoreError::CreateServerDenied,
            ),
            old(self).servers.spec_get(server.id@) is Some ==> r is Err,
            (user.is_admin || user.create_server_permissions) && old(self).servers.spec_get(server.id@) is None
                && !old(self).server_is_busy(server.id@) ==> r is Ok,
            r matches Ok(x) ==> x.id == server.id && x.name == server.name && x.address == server.address
                && x.enabled == server.enabled && x.region == server.region && x.updated_at == now
                && (final(self).servers.spec_get(server.id@) matches Some(t) && x.same_as(t)),
            r is Ok ==> final(self).updates@.len() == old(self).updates@.len() + 2,
    {
        let created = self.create_server(server.id.clone(), server.name.as_str(), server.address.clone(), user, now)?;
        let full = Server {
            id: server.id,
            name: server.name,
            address: server.address,
            enabled: server.enabled,
            region: server.region,
            permissions: created.permissions,
            created_at: created.created_at,
            updated_at: created.updated_at,
        };
        self.update_server(full, user, now)
    }

    /// Procedure `id`, when `user` holds `level` on it.
    pub fn get_procedure_check_permissions(
        &self,
        id: &str,
        user: &crate::entities::User,
        level: PermissionLevel,
    ) -> (r: Result<&Procedure, CoreError>)
        requires
            self.wf(),
        ensures
            match self.procedures.spec_get(id@) {
                None => r == Err::<&Procedure, CoreError>(CoreError::NotFound),
                Some(p) => if permitted(p.permissions@, *user, level) {
                    r matches Ok(x) && *x == p
                } else {
                    r == Err::<&Procedure, CoreError>(CoreError::PermissionDenied(ResourceKind::Procedure))
                },
            },
    {
        let p = match self.procedures.get_ref(id) {
            Some(p) => p,
            None => {
                return Err(CoreError::NotFound);
            },
        };
        if has_permission(&p.permissions, user, level) {
            Ok(p)
        } else {
            Err(CoreError::PermissionDenied(ResourceKind::Procedure))
        }
    }

    /// Adds an empty procedure named `name` under the fresh id `id`, with
    /// `user` holding `Update` on it, and records the creation.
    pub fn create_procedure(&mut self, id: String, name: &str, user: &crate::entities::User, now: i64) -> (r:
        Result<Procedure, CoreError>)
        requires
            old(self).wf(),
        ensures
            final(self).wf(),
            old(self).procedures.spec_get(id@) is Some ==> r == Err::<Procedure, CoreError>(CoreError::IdTaken)
                && *final(self) == *old(self),
            old(self).procedures.spec_get(id@) is None ==> {
                &&& r matches Ok(x) && final(self).procedures.spec_get(id@) matches Some(p) && x.same_as(p)
                &&& final(self).procedures.spec_get(id@) matches Some(p) && p.id@ == id@ && p.name@ == name@
                    && p.stages@.len() == 0 && p.permissions@.len() == 1 && p.permissions@[0].0@ == user.id@
                    && p.permissions@[0].1 == PermissionLevel::Update && p.created_at == now
                    && p.updated_at == now
                &&& forall|k: Seq<char>| k != id@ ==> #[trigger] final(self).procedures.spec_get(k) == old(self).procedures.spec_get(k)
                &&& recorded(old(self), final(self), Operation::CreateProcedure, user.id@, now)
                &&& final(self).updates@.last().target matches ResourceTarget::Procedure(t) && t@ == id@
            },
    {
        if self.procedures.get_ref(id.as_str()).is_some() {
            return Err(CoreError::IdTaken);
        }
        let mut permissions: Vec<(String, PermissionLevel)> = Vec::new();
        permissions.push((user.id.clone(), PermissionLevel::Update));
        let procedure = Procedure {
            id: id.clone(),
            name: name.to_owned(),
            stages: Vec::new(),
            permissions,
            created_at: now,
            updated_at: now,
        };
        let out = procedure.duplicate();
        self.procedures.put(id.as_str(), procedure);
        self.record(ResourceTarget::Procedure(id), Operation::CreateProcedure, &user.id, None, now);
        Ok(out)
    }

    /// Removes procedure `id` and records the deletion, when `user` holds
    /// `Update` on it.
    pub fn delete_procedure(&mut self, id: &str, user: &crate::entities::User, now: i64) -> (r: Result<
        Procedure,
        CoreError,
    >)
        requires
            old(self).wf(),
        ensures
            final(self).wf(),
            match old(self).procedures.spec_get(id@) {
                None => r == Err::<Procedure, CoreError>(CoreError::NotFound) && *final(self) == *old(self),
                Some(p) => if !permitted(p.permissions@, *user, PermissionLevel::Update) {
                    r == Err::<Procedure, CoreError>(CoreError::PermissionDenied(ResourceKind::Procedure)) && *final(self) == *old(self)
                } else {
                    &&& r == Ok::<Procedure, CoreError>(p)
                    &&& final(self).updates@.last().logs@[0].success
                    &&& final(self).updates@.last().logs@[0].stderr@.len() == 0
                    &&& final(self).procedures.spec_get(id@) is None
                    &&& forall|k: Seq<char>| k != id@ ==> #[trigger] final(self).procedures.spec_get(k) == old(self).procedures.spec_get(k)
                    &&& recorded(old(self), final(self), Operation::DeleteProcedure, user.id@, now)
                    &&& final(self).updates@.last().target == ResourceTarget::System
                    &&& final(self).updates@.last().logs@.len() == 1
                    &&& final(self).updates@.last().logs@[0].stdout@ == "deleted procedure "@ + p.name@
                },
            },
    {
        self.get_procedure_check_permissions(id, user, PermissionLevel::Update)?;
        let removed = match self.procedures.remove(id) {
            Some(p) => p,
            None => {
                return Err(CoreError::NotFound);
            },
        };
        let mut msg = "deleted procedure ".to_owned();
        msg.append(removed.name.as_str());
        let log = Log::simple("delete procedure", msg, now);
        self.record(ResourceTarget::System, Operation::DeleteProcedure, &user.id, Some(log), now);
        Ok(removed)
    }

    /// Overwrites procedure `new_procedure.id` with `new_procedure`, keeping
    /// its permissions and creation time and stamping the update time, and
    /// records the change, when `user` holds `Update` on it.
    pub fn update_procedure(&mut self, new_procedure: Procedure, user: &crate::entities::User, now: i64) -> (r:
        Result<Procedure, CoreError>)
        requires
            old(self).wf(),
        ensures
            final(self).wf(),
            match old(self).procedures.spec_get(new_procedure.id@) {
                None => r == Err::<Procedure, CoreError>(CoreError::NotFound) && *final(self) == *old(self),
                Some(p) => if !permitted(p.permissions@, *user, PermissionLevel::Update) {
                    r == Err::<Procedure, CoreError>(CoreError::PermissionDenied(ResourceKind::Procedure)) && *final(self) == *old(self)
                } else {
                    &&& r matches Ok(x) && final(self).procedures.spec_get(new_procedure.id@) matches Some(q) && x.same_as(q)
                    &&& final(self).procedures.spec_get(new_procedure.id@) matches Some(q)
                        && q.name == new_procedure.name && q.stages == new_procedure.stages
                        && q.permissions@ == p.permissions@ && q.created_at == p.created_at
                        && q.updated_at == now
                    &&& forall|k: Seq<char>| k != new_procedure.id@ ==> #[trigger] final(self).procedures.spec_get(k) == old(self).procedures.spec_get(k)
                    &&& recorded(old(self), final(self), Operation::UpdateProcedure, user.id@, now)
                    &&& final(self).updates@.last().target matches ResourceTarget::Procedure(t) && t@ == new_procedure.id@
                },
            },
    {
        let mut new_procedure = new_procedure;
        let (permissions, created_at) = {
            let current = self.get_procedure_check_permissions(new_procedure.id.as_str(), user, PermissionLevel::Update)?;
            (clone_permissions(&current.permissions), current.created_at)
        };
        new_procedure.permissions = permissions;
        new_procedure.created_at = created_at;
        new_procedure.updated_at = now;
        let id = new_procedure.id.clone();
        let out = new_procedure.duplicate();
        self.procedures.put(id.as_str(), new_procedure);
        self.record(ResourceTarget::Procedure(id), Operation::UpdateProcedure, &user.id, None, now);
        Ok(out)
    }

    /// Creates procedure `procedure` in two steps, as `create_procedure`
    /// then `update_procedure` with its stages.
    pub fn create_full_procedure(&mut self, procedure: Procedure, user: &crate::entities::User, now: i64) -> (r:
        Result<Procedure, CoreError>)
        requires
            old(self).wf(),
        ensures
            final(self).wf(),
            old(self).procedures.spec_get(procedure.id@) is Some ==> r == Err::<Procedure, CoreError>(
                CoreError::IdTaken,
            ),
            old(self).procedures.spec_get(procedure.id@) is None ==> (r matches Ok(x)
                && final(self).procedures.spec_get(procedure.id@) matches Some(q) && x.same_as(q))
                && final(self).updates@.len() == old(self).updates@.len() + 2
                && (final(self).procedures.spec_get(procedure.id@) matches Some(q) && q.name == procedure.name
                && q.stages == procedure.stages && q.created_at == now && q.updated_at == now),
    {
        self.create_procedure(procedure.id.clone(), procedure.name.as_str(), user, now)?;
        self.update_procedure(procedure, user, now)
    }

    /// Runs procedure `id` when `user` holds `Update` on it. No stage kind
    /// is run yet, so no update comes of it.
    pub fn run_procedure(&self, id: &str, user: &crate::entities::User) -> (r: Result<Vec<Update>, CoreError>)
        requires
            self.wf(),
        ensures
            match self.procedures.spec_get(id@) {
                None => r == Err::<Vec<Update>, CoreError>(CoreError::NotFound),
                Some(p) => if permitted(p.permissions@, *user, PermissionLevel::Update) {
                    r matches Ok(v) && v@.len() == 0
                } else {
                    r == Err::<Vec<Update>, CoreError>(CoreError::PermissionDenied(ResourceKind::Procedure))
                },
            },
    {
        let _procedure = self.get_procedure_check_permissions(id, user, PermissionLevel::Update)?;
        Ok(Vec::new())
    }
}

/// `a` and `b` on separate lines, either left out when empty.
pub open spec fn joined(a: Seq<char>, b: Seq<char>) -> Seq<char> {
    if a.len() == 0 {
        b
    } else if b.len() == 0 {
        a
    } else {
        a + "\n"@ + b
    }
}

/// The line `<field>: <before> => <after>`, or nothing when the value is
/// unchanged.
pub open spec fn change_line(field: Seq<char>, before: Seq<char>, after: Seq<char>) -> Seq<char> {
    if before == after {
        Seq::empty()
    } else {
        field + before + " => "@ + after
    }
}

/// The fields that an update of a server changed, one line each.
pub open spec fn changes_text(name: Seq<char>, address: Seq<char>, enabled: bool, new_server: Server) -> Seq<char> {
    let enabled_line = if enabled == new_server.enabled {
        Seq::empty()
    } else if new_server.enabled {
        "enabled: false => true"@
    } else {
        "enabled: true => false"@
    };
    joined(
        joined(change_line("name: "@, name, new_server.name@), change_line("address: "@, address, new_server.address@)),
        enabled_line,
    )
}

/// The fields that an update of a server changed, one per line, as
/// `<field>: <before> => <after>`.
pub fn server_changes(name: &String, address: &String, enabled: bool, new_server: &Server) -> (r: String)
    ensures
        r@ == changes_text(name@, address@, enabled, *new_server),
        (r@.len() == 0) == (name@ == new_server.name@ && address@ == new_server.address@ && enabled
            == new_server.enabled),
{
    proof {
        reveal_strlit("name: ");
        reveal_strlit("address: ");
        reveal_strlit("enabled: false => true");
        reveal_strlit("enabled: true => false");
    }
    let mut out = String::new();
    let mut any = false;
    if *name != new_server.name {
        any = true;
        out.append("name: ");
        out.append(name.as_str());
        out.append(" => ");
        out.append(new_server.name.as_str());
    }
    let ghost p1 = change_line("name: "@, name@, new_server.name@);
    assert(out@ =~= p1);
    assert(any == (p1.len() > 0));
    if *address != new_server.address {
        let ghost before = out@;
        if any {
            out.append("\n");
        }
        any = true;
        out.append("address: ");
        out.append(address.as_str());
        out.append(" => ");
        out.append(new_server.address.as_str());
        assert(out@ =~= joined(p1, change_line("address: "@, address@, new_server.address@)));
    }
    let ghost p12 = joined(p1, change_line("address: "@, address@, new_server.address@));
    assert(out@ =~= p12);
    assert(any == (p12.len() > 0));
    if enabled != new_server.enabled {
        if any {
            out.append("\n");
        }
        out.append(if new_server.enabled {
            "enabled: false => true"
        } else {
            "enabled: true => false"
        });
    }
    assert(out@ =~= changes_text(name@, address@, enabled, *new_server));
    out
}

} // verus!
