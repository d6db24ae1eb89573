use vstd::prelude::*;

use crate::action_state::ServerActionState;
use crate::entities::{has_permission, permitted, PermissionLevel, Server, ServerStatus, User};
use crate::state::{CoreError, ResourceKind, State};
use crate::stats::{
    historical_stats_timestamps, next_page, page_at_some_interval, page_fits_any_interval, STATS_PER_PAGE,
};

verus! {

/// Reads one server.
pub struct GetServer {
    pub id: String,
}

/// Lists the servers the user may read.
pub struct ListServers {}

pub struct CreateServer {
    pub name: String,
    pub address: String,
}

pub struct DeleteServer {
    pub id: String,
}

pub struct UpdateServer {
    pub config: Server,
}

pub struct RenameServer {
    pub id: String,
    pub name: String,
}

pub struct GetServerStatus {
    pub id: String,
}

pub struct GetServerStatusResponse {
    pub status: ServerStatus,
}

pub struct GetServerActionState {
    pub id: String,
}

pub struct GetPeripheryVersion {
    pub server_id: String,
}

pub struct GetPeripheryVersionResponse {
    pub version: String,
}

pub struct GetDockerNetworks {
    pub server_id: String,
}

pub struct GetDockerImages {
    pub server_id: String,
}

pub struct GetDockerContainers {
    pub server_id: String,
}

pub struct GetSystemInformation {
    pub server_id: String,
}

pub struct GetSystemStats {
    pub server_id: String,
}

pub struct GetAllSystemStats {
    pub server_id: String,
}

pub struct GetBasicSystemStats {
    pub server_id: String,
}

pub struct GetCpuUsage {
    pub server_id: String,
}

pub struct GetDiskUsage {
    pub server_id: String,
}

pub struct GetNetworkUsage {
    pub server_id: String,
}

pub struct GetSystemProcesses {
    pub server_id: String,
}

pub struct GetSystemComponents {
    pub server_id: String,
}

pub struct GetHistoricalServerStats {
    pub server_id: String,
    pub interval: async_timing_util::Timelength,
    pub page: u32,
}

/// One page of stats records, and the page after it when there may be one.
pub struct GetHistoricalServerStatsResponse<T> {
    pub stats: Vec<T>,
    pub next_page: Option<u32>,
}

pub struct GetServersSummary {}

#[derive(Clone, Copy, Debug, PartialEq, Eq, Structural)]
pub struct GetServersSummaryResponse {
    pub total: i64,
    pub healthy: i64,
    pub unhealthy: i64,
    pub disabled: i64,
}

pub struct GetAvailableAccounts {
    pub server_id: String,
}

pub struct GetAvailableAccountsResponse {
    pub github: Vec<String>,
    pub docker: Vec<String>,
}

pub struct GetAvailableSecrets {
    pub server_id: String,
}

/// A page of `stats` fetched for page `page`, with the following page
/// exactly when this one is full.
pub fn historical_stats_response<T>(stats: Vec<T>, page: u32) -> (r: GetHistoricalServerStatsResponse<T>)
    requires
        page < u32::MAX,
    ensures
        r.stats@ == stats@,
        r.next_page == (if stats@.len() == STATS_PER_PAGE {
            Some((page + 1) as u32)
        } else {
            None
        }),
{
    let next = next_page(page, stats.len());
    GetHistoricalServerStatsResponse { stats, next_page: next }
}

/// Some entry among the first `n` of `entries` holds `s`.
pub open spec fn stored_in(entries: Seq<(String, Server)>, n: int, s: Server) -> bool {
    exists|j: int| 0 <= j < n && (#[trigger] entries[j]).1.same_as(s)
}

/// How many of `servers` are visible to `user`, and how many of those the
/// cache of `st` sees as healthy, unhealthy and disabled.
pub open spec fn tally(st: &State, servers: Seq<(String, Server)>, user: User) -> (nat, nat, nat, nat)
    decreases servers.len(),
{
    if servers.len() == 0 {
        (0, 0, 0, 0)
    } else {
        let (t, h, u, d) = tally(st, servers.drop_last(), user);
        let s = servers.last().1;
        if !permitted(s.permissions@, user, PermissionLevel::Read) {
            (t, h, u, d)
        } else {
            match st.status_of(s) {
                ServerStatus::Healthy => (t + 1, h + 1, u, d),
                ServerStatus::NotOk => (t + 1, h, u + 1, d),
                ServerStatus::Disabled => (t + 1, h, u, d + 1),
            }
        }
    }
}

proof fn lemma_tally_bounded(st: &State, servers: Seq<(String, Server)>, user: User)
    ensures
        tally(st, servers, user).0 <= servers.len(),
        tally(st, servers, user).0 == tally(st, servers, user).1 + tally(st, servers, user).2 + tally(
            st,
            servers,
            user,
        ).3,
    decreases servers.len(),
{
    if servers.len() > 0 {
        lemma_tally_bounded(st, servers.drop_last(), user);
    }
}

impl State {
    /// Server `id` when `user` may read it.
    pub open spec fn readable(&self, id: Seq<char>, user: User) -> Result<Server, CoreError> {
        match self.servers.spec_get(id) {
            None => Err(CoreError::NotFound),
            Some(s) => if permitted(s.permissions@, user, PermissionLevel::Read) {
                Ok(s)
            } else {
                Err(CoreError::PermissionDenied(ResourceKind::Server))
            },
        }
    }

    /// Server `id` when `user` may read it; the caller may then query its
    /// agent (system information, images, networks, containers, accounts,
    /// secrets).
    pub fn check_read(&self, id: &str, user: &User) -> (r: Result<&Server, CoreError>)
        requires
            self.wf(),
        ensures
            match r {
                Ok(s) => self.readable(id@, *user) == Ok::<Server, CoreError>(*s),
                Err(e) => self.readable(id@, *user) == Err::<Server, CoreError>(e),
            },
    {
        let s = match self.servers.get_ref(id) {
            Some(s) => s,
            None => {
                return Err(CoreError::NotFound);
            },
        };
        if has_permission(&s.permissions, user, PermissionLevel::Read) {
            Ok(s)
        } else {
            Err(CoreError::PermissionDenied(ResourceKind::Server))
        }
    }

    pub fn get_server(&self, req: &GetServer, user: &User) -> (r: Result<Server, CoreError>)
        requires
            self.wf(),
        ensures
            match self.readable(req.id@, *user) {
                Ok(s) => r matches Ok(x) && x.same_as(s),
                Err(e) => r == Err::<Server, CoreError>(e),
            },
    {
        let s = self.check_read(req.id.as_str(), user)?;
        Ok(s.duplicate())
    }

    /// The servers `user` may read, in store order.
    #[verifier::rlimit(40)]
    pub fn list_servers(&self, req: &ListServers, user: &User) -> (r: Vec<Server>)
        requires
            self.wf(),
        ensures
            r@.len() <= self.servers.entries@.len(),
            forall|i: int| 0 <= i < r@.len() ==> permitted((#[trigger] r@[i]).permissions@, *user, PermissionLevel::Read),
            forall|i: int| 0 <= i < r@.len() ==> stored_in(self.servers.entries@, self.servers.entries@.len() as int, #[trigger] r@[i]),
            forall|i: int|
                0 <= i < self.servers.entries@.len() && permitted(
                    (#[trigger] self.servers.entries@[i]).1.permissions@,
                    *user,
                    PermissionLevel::Read,
                ) ==> exists|j: int| 0 <= j < r@.len() && (#[trigger] r@[j]).same_as(self.servers.entries@[i].1),
    {
        let mut out: Vec<Server> = Vec::new();
        let mut i: usize = 0;
        while i < self.servers.entries.len()
            invariant
                i <= self.servers.entries@.len(),
                out@.len() <= i,
                forall|k: int| 0 <= k < out@.len() ==> permitted((#[trigger] out@[k]).permissions@, *user, PermissionLevel::Read),
                forall|k: int| 0 <= k < out@.len() ==> stored_in(self.servers.entries@, i as int, #[trigger] out@[k]),
                forall|k: int|
                    0 <= k < i && permitted(
                        (#[trigger] self.servers.entries@[k]).1.permissions@,
                        *user,
                        PermissionLevel::Read,
                    ) ==> exists|j: int| 0 <= j < out@.len() && (#[trigger] out@[j]).same_as(self.servers.entries@[k].1),
            decreases self.servers.entries@.len() - i,
        {
            let s = &self.servers.entries[i].1;
            if has_permission(&s.permissions, user, PermissionLevel::Read) {
                let ghost before = out@;
                out.push(s.duplicate());
                proof {
                    assert forall|k: int|
                        0 <= k < i + 1 && permitted(
                            (#[trigger] self.servers.entries@[k]).1.permissions@,
                            *user,
                            PermissionLevel::Read,
                        ) implies exists|j: int| 0 <= j < out@.len() && (#[trigger] out@[j]).same_as(self.servers.entries@[k].1) by {
                        if k < i {
                            let j = choose|j: int| 0 <= j < before.len() && (#[trigger] before[j]).same_as(self.servers.entries@[k].1);
                            assert(out@[j] == before[j]);
                        } else {
                            assert(out@[before.len() as int].same_as(self.servers.entries@[k].1));
                        }
                    }
                    assert forall|k: int| 0 <= k < out@.len() implies stored_in(self.servers.entries@, i + 1, #[trigger] out@[k]) by {
                        if k < before.len() {
                            assert(out@[k] == before[k]);
                            assert(stored_in(self.servers.entries@, i as int, before[k]));
                            let j = choose|j: int| 0 <= j < i && (#[trigger] self.servers.entries@[j]).1.same_as(before[k]);
                            assert(self.servers.entries@[j].1.same_as(out@[k]));
                        } else {
                            assert(self.servers.entries@[i as int].1.same_as(out@[k]));
                        }
                    }
                }
            } else {
                proof {
                    assert forall|k: int| 0 <= k < out@.len() implies stored_in(self.servers.entries@, i + 1, #[trigger] out@[k]) by {
                        assert(stored_in(self.servers.entries@, i as int, out@[k]));
                        let j = choose|j: int| 0 <= j < i && (#[trigger] self.servers.entries@[j]).1.same_as(out@[k]);
                    }
                }
            }
            i = i + 1;
        }
        out
    }

    /// The cached status of server `id`, when `user` may read it.
    pub fn get_server_status(&self, req: &GetServerStatus, user: &User) -> (r: Result<
        GetServerStatusResponse,
        CoreError,
    >)
        requires
            self.wf(),
        ensures
            match self.readable(req.id@, *user) {
                Err(e) => r == Err::<GetServerStatusResponse, CoreError>(e),
                Ok(_) => match self.status_cache.spec_get(req.id@) {
                    None => r == Err::<GetServerStatusResponse, CoreError>(CoreError::NoCachedStatus),
                    Some(c) => r matches Ok(x) && x.status == c.status,
                },
            },
    {
        self.check_read(req.id.as_str(), user)?;
        match self.status_cache.get_ref(req.id.as_str()) {
            Some(c) => Ok(GetServerStatusResponse { status: c.status }),
            None => Err(CoreError::NoCachedStatus),
        }
    }

    /// The action flags of server `id`, all clear when none were recorded.
    pub fn get_server_action_state(&self, req: &GetServerActionState, user: &User) -> (r: Result<
        ServerActionState,
        CoreError,
    >)
        requires
            self.wf(),
        ensures
            match self.readable(req.id@, *user) {
                Err(e) => r == Err::<ServerActionState, CoreError>(e),
                Ok(_) => match self.server_action_states.spec_get(req.id@) {
                    None => r matches Ok(x) && !x.is_busy(),
                    Some(a) => r == Ok::<ServerActionState, CoreError>(a),
                },
            },
    {
        self.check_read(req.id.as_str(), user)?;
        match self.server_action_states.get(req.id.as_str()) {
            Some(a) => Ok(a),
            None => Ok(ServerActionState::idle()),
        }
    }

    /// The agent version last seen on server `server_id`, or `unknown`.
    pub fn get_periphery_version(&self, req: &GetPeripheryVersion, user: &User) -> (r: Result<
        GetPeripheryVersionResponse,
        CoreError,
    >)
        requires
            self.wf(),
        ensures
            match self.readable(req.server_id@, *user) {
                Err(e) => r == Err::<GetPeripheryVersionResponse, CoreError>(e),
                Ok(_) => r matches Ok(x) && x.version@ == match self.status_cache.spec_get(req.server_id@) {
                    Some(c) => c.version@,
                    None => "unknown"@,
                },
            },
    {
        self.check_read(req.server_id.as_str(), user)?;
        let version = match self.status_cache.get_ref(req.server_id.as_str()) {
            Some(c) => c.version.clone(),
            None => "unknown".to_owned(),
        };
        Ok(GetPeripheryVersionResponse { version })
    }

    /// Whether the cached stats of server `server_id` may be served to
    /// `user`: readable, polled, and reachable at the last poll.
    pub fn check_stats_access(&self, server_id: &str, user: &User) -> (r: Result<(), CoreError>)
        requires
            self.wf(),
        ensures
            match self.readable(server_id@, *user) {
                Err(e) => r == Err::<(), CoreError>(e),
                Ok(_) => match self.status_cache.spec_get(server_id@) {
                    None => r matches Err(CoreError::NoStatusForServer(id)) && id@ == server_id@,
                    Some(c) => if c.has_stats {
                        r is Ok
                    } else {
                        r == Err::<(), CoreError>(CoreError::StatsUnavailable)
                    },
                },
            },
    {
        self.check_read(server_id, user)?;
        match self.status_cache.get_ref(server_id) {
            Some(c) => if c.has_stats {
                Ok(())
            } else {
                Err(CoreError::StatsUnavailable)
            },
            None => Err(CoreError::NoStatusForServer(server_id.to_owned())),
        }
    }

    /// The timestamps that page `req.page` of the stats history of server
    /// `req.server_id` covers, newest first, when `user` may read it. The
    /// page is owed whenever it fits in `i64` at every interval.
    pub fn get_historical_server_stats(&self, req: &GetHistoricalServerStats, user: &User, now_ms: i64) -> (r:
        Result<Vec<i64>, CoreError>)
        requires
            self.wf(),
            now_ms >= 0,
        ensures
            self.readable(req.server_id@, *user) matches Err(e) ==> r == Err::<Vec<i64>, CoreError>(e),
            self.readable(req.server_id@, *user) is Ok ==> (r is Ok || r == Err::<Vec<i64>, CoreError>(
                CoreError::PageOutOfRange,
            )),
            self.readable(req.server_id@, *user) is Ok && page_fits_any_interval(now_ms, req.page) ==> r is Ok,
            r matches Ok(v) ==> page_at_some_interval(v@, now_ms, req.page),
    {
        self.check_read(req.server_id.as_str(), user)?;
        match historical_stats_timestamps(now_ms, req.interval, req.page) {
            Some(v) => Ok(v),
            None => Err(CoreError::PageOutOfRange),
        }
    }

    /// Counts the servers `user` may read: all of them, and by status.
    pub fn get_servers_summary(&self, req: &GetServersSummary, user: &User) -> (r: GetServersSummaryResponse)
        requires
            self.wf(),
            self.servers.entries@.len() <= i64::MAX,
        ensures
            r.total == tally(self, self.servers.entries@, *user).0,
            r.healthy == tally(self, self.servers.entries@, *user).1,
            r.unhealthy == tally(self, self.servers.entries@, *user).2,
            r.disabled == tally(self, self.servers.entries@, *user).3,
    {
        let mut res = GetServersSummaryResponse { total: 0, healthy: 0, unhealthy: 0, disabled: 0 };
        let mut i: usize = 0;
        while i < self.servers.entries.len()
            invariant
                i <= self.servers.entries@.len(),
                self.servers.entries@.len() <= i64::MAX,
                self.wf(),
                (res.total as nat, res.healthy as nat, res.unhealthy as nat, res.disabled as nat) == tally(
                    self,
                    self.servers.entries@.subrange(0, i as int),
                    *user,
                ),
                res.total >= 0 && res.healthy >= 0 && res.unhealthy >= 0 && res.disabled >= 0,
            decreases self.servers.entries@.len() - i,
        {
            let ghost sub = self.servers.entries@.subrange(0, i + 1);
            assert(sub.drop_last() =~= self.servers.entries@.subrange(0, i as int));
            proof {
                lemma_tally_bounded(self, self.servers.entries@.subrange(0, i as int), *user);
            }
            let s = &self.servers.entries[i].1;
            if has_permission(&s.permissions, user, PermissionLevel::Read) {
                res.total = res.total + 1;
                match self.server_status(s) {
                    ServerStatus::Healthy => {
                        res.healthy = res.healthy + 1;
                    },
                    ServerStatus::NotOk => {
                        res.unhealthy = res.unhealthy + 1;
                    },
                    ServerStatus::Disabled => {
                        res.disabled = res.disabled + 1;
                    },
                }
            }
            i = i + 1;
        }
        assert(self.servers.entries@.subrange(0, self.servers.entries@.len() as int) =~= self.servers.entries@);
        res
    }
}

} // verus!
