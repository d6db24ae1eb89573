use monitor_core::api::{
    GetHistoricalServerStats, GetPeripheryVersion, GetServer, GetServerActionState, GetServerStatus, GetServersSummary, ListServers,
};
use monitor_core::entities::{CachedStatus, PermissionLevel, Procedure, ProcedureStage, ServerStatus, User};
use monitor_core::state::{CoreError, ResourceKind, State};
use monitor_core::update::{Operation, ResourceTarget, UpdateStatus};

fn user(id: &str, create: bool) -> User {
    User { id: id.to_string(), is_admin: false, create_server_permissions: create }
}

#[test]
fn create_server_needs_permission() {
    let mut st = State::new();
    let r = st.create_server("s1".to_string(), "one", "https://one".to_string(), &user("bob", false), 10);
    let err = r.err().unwrap();
    assert_eq!(err, CoreError::CreateServerDenied);
    assert_eq!(err.message(), "user does not have permissions to add server (not admin)");
    assert_eq!(st.updates.len(), 0);
    let s = st
        .create_server("s1".to_string(), "one", "https://one".to_string(), &user("alice", true), 10)
        .ok()
        .unwrap();
    assert_eq!(s.name, "one");
    assert_eq!(s.permissions, vec![("alice".to_string(), PermissionLevel::Update)]);
    assert_eq!(st.updates.len(), 1);
    assert_eq!(st.updates[0].operation, Operation::CreateServer);
    assert_eq!(st.updates[0].status, UpdateStatus::Complete);
    let again = st.create_server("s1".to_string(), "dup", "x".to_string(), &user("alice", true), 11);
    assert_eq!(again.err(), Some(CoreError::IdTaken));
}

#[test]
fn update_server_keeps_permissions() {
    let mut st = State::new();
    let alice = user("alice", true);
    let mut s = st.create_server("s1".to_string(), "one", "https://one".to_string(), &alice, 10).ok().unwrap();
    s.address = "https://two".to_string();
    s.permissions = vec![];
    s.created_at = 999;
    let u = st.update_server(s, &alice, 20).ok().unwrap();
    assert_eq!(u.address, "https://two");
    assert_eq!(u.permissions, vec![("alice".to_string(), PermissionLevel::Update)]);
    assert_eq!(u.created_at, 10);
    assert_eq!(u.updated_at, 20);
    assert_eq!(st.updates[1].logs[0].stdout, "address: https://one => https://two");
    let renamed = st.rename_server("s1", "uno", &alice, 30).ok().unwrap();
    assert_eq!(renamed.name, "uno");
    assert_eq!(st.get_server(&GetServer { id: "s1".to_string() }, &alice).ok().unwrap().name, "uno");
}

#[test]
fn delete_server_records_update() {
    let mut st = State::new();
    let alice = user("alice", true);
    st.create_server("s1".to_string(), "one", "https://one".to_string(), &alice, 10).ok().unwrap();
    assert_eq!(st.delete_server("s1", &user("bob", false), 11).err(), Some(CoreError::PermissionDenied(ResourceKind::Server)));
    let gone = st.delete_server("s1", &alice, 12).ok().unwrap();
    assert_eq!(gone.id, "s1");
    let last = st.updates.last().unwrap();
    assert!(matches!(last.target, ResourceTarget::System));
    assert_eq!(last.logs[0].stdout, "deleted server one");
    assert_eq!(st.delete_server("s1", &alice, 13).err(), Some(CoreError::NotFound));
}

#[test]
fn read_handlers() {
    let mut st = State::new();
    let alice = user("alice", true);
    let bob = user("bob", false);
    st.create_server("s1".to_string(), "one", "https://one".to_string(), &alice, 10).ok().unwrap();
    st.create_server("s2".to_string(), "two", "https://two".to_string(), &alice, 10).ok().unwrap();
    st.create_server("s3".to_string(), "three", "https://three".to_string(), &user("bob", true), 10).ok().unwrap();
    st.status_cache.put("s1", CachedStatus { status: ServerStatus::Healthy, version: "1.4".to_string(), has_stats: true });
    let v = st.get_periphery_version(&GetPeripheryVersion { server_id: "s1".to_string() }, &alice).ok().unwrap();
    assert_eq!(v.version, "1.4");
    let v = st.get_periphery_version(&GetPeripheryVersion { server_id: "s2".to_string() }, &alice).ok().unwrap();
    assert_eq!(v.version, "unknown");
    assert_eq!(
        st.get_server_status(&GetServerStatus { id: "s2".to_string() }, &alice).err(),
        Some(CoreError::NoCachedStatus)
    );
    assert_eq!(
        st.get_server_status(&GetServerStatus { id: "s1".to_string() }, &alice).ok().unwrap().status,
        ServerStatus::Healthy
    );
    assert_eq!(st.get_server(&GetServer { id: "s1".to_string() }, &bob).err(), Some(CoreError::PermissionDenied(ResourceKind::Server)));
    let state = st.get_server_action_state(&GetServerActionState { id: "s1".to_string() }, &alice).ok().unwrap();
    assert!(!state.busy());
    assert_eq!(st.list_servers(&ListServers {}, &alice).len(), 2);
    let summary = st.get_servers_summary(&GetServersSummary {}, &alice);
    assert_eq!((summary.total, summary.healthy, summary.unhealthy, summary.disabled), (2, 1, 1, 0));
    assert!(st.check_stats_access("s1", &alice).is_ok());
    let err = st.check_stats_access("s2", &alice).err().unwrap();
    assert_eq!(err.message(), "did not find status for server at s2");
    st.status_cache.put("s2", CachedStatus { status: ServerStatus::NotOk, version: "1.4".to_string(), has_stats: false });
    assert_eq!(st.check_stats_access("s2", &alice).err().unwrap().message(), "server not reachable");
}

#[test]
fn procedures_lifecycle() {
    let mut st = State::new();
    let alice = user("alice", false);
    let created = st.create_procedure("proc-a".to_string(), "nightly", &alice, 5).ok().unwrap();
    assert_eq!(created.created_at, 5);
    assert_eq!(st.create_procedure("proc-a".to_string(), "again", &alice, 6).err(), Some(CoreError::IdTaken));
    let p = Procedure {
        id: "proc-a".to_string(),
        name: "nightly".to_string(),
        stages: vec![ProcedureStage { operation: "Deploy".to_string(), target_id: "d1".to_string() }],
        permissions: vec![],
        created_at: 0,
        updated_at: 0,
    };
    let updated = st.update_procedure(p, &alice, 7).ok().unwrap();
    assert_eq!(updated.permissions, vec![("alice".to_string(), PermissionLevel::Update)]);
    let stored = st.get_procedure_check_permissions("proc-a", &alice, PermissionLevel::Update).ok().unwrap();
    assert_eq!(stored.stages.len(), 1);
    assert_eq!(stored.created_at, 5);
    assert_eq!(stored.updated_at, 7);
    assert_eq!(st.run_procedure("proc-a", &alice).ok().unwrap().len(), 0);
    let err = st.run_procedure("proc-a", &user("bob", false)).err().unwrap();
    assert_eq!(err, CoreError::PermissionDenied(ResourceKind::Procedure));
    assert_eq!(err.message(), "user does not have required permissions on this procedure");
    let gone = st.delete_procedure("proc-a", &alice, 8).ok().unwrap();
    assert_eq!(gone.name, "nightly");
    assert_eq!(st.updates.last().unwrap().logs[0].stdout, "deleted procedure nightly");
    assert_eq!(st.run_procedure("proc-a", &alice).err(), Some(CoreError::NotFound));
}

#[test]
fn historical_stats_window() {
    let mut st = State::new();
    let alice = user("alice", true);
    st.create_server("s1".to_string(), "one", "https://one".to_string(), &alice, 10).ok().unwrap();
    let req = GetHistoricalServerStats {
        server_id: "s1".to_string(),
        interval: async_timing_util::Timelength::FiveSeconds,
        page: 2,
    };
    let ts = st.get_historical_server_stats(&req, &alice, 10_000_001).ok().unwrap();
    assert_eq!(ts.len(), 500);
    assert_eq!(ts[0], 10_000_000 - 5_000 * 500 * 2);
    assert_eq!(ts[0] - ts[1], 5_000);
    assert_eq!(st.get_historical_server_stats(&req, &user("bob", false), 1).err(), Some(CoreError::PermissionDenied(ResourceKind::Server)));
}
