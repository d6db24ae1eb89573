use monitor_core::action_state::DeploymentVerb;
use monitor_core::entities::{
    Build, CachedStatus, Deployment, DeploymentImage, PermissionLevel, Server, ServerStatus, User,
};
use monitor_core::state::{ActionKind, CoreError, PeripheryRequest, ResourceKind, State};
use monitor_core::update::{Log, Operation, ResourceTarget, UpdateStatus};

fn user(id: &str) -> User {
    User { id: id.to_string(), is_admin: false, create_server_permissions: false }
}

fn admin() -> User {
    User { id: "admin".to_string(), is_admin: true, create_server_permissions: true }
}

fn server(id: &str, enabled: bool) -> Server {
    Server {
        id: id.to_string(),
        name: format!("{id}-name"),
        address: format!("https://{id}.local:8000"),
        enabled,
        region: None,
        permissions: vec![("alice".to_string(), PermissionLevel::Execute)],
        created_at: 1,
        updated_at: 1,
    }
}

fn deployment(id: &str, name: &str, server_id: &str, image: DeploymentImage) -> Deployment {
    Deployment {
        id: id.to_string(),
        name: name.to_string(),
        server_id: server_id.to_string(),
        image,
        docker_account: String::new(),
        termination_signal: "SIGTERM".to_string(),
        termination_timeout: 10,
        extra_args: vec![],
        permissions: vec![("alice".to_string(), PermissionLevel::Execute)],
    }
}

fn cache(st: &mut State, id: &str, status: ServerStatus) {
    st.status_cache.put(
        id,
        CachedStatus { status, version: "1.0.0".to_string(), has_stats: status == ServerStatus::Healthy },
    );
}

fn state_with(d: Deployment, status: ServerStatus) -> State {
    let mut st = State::new();
    let sid = d.server_id.clone();
    st.servers.put(&sid, server(&sid, true));
    cache(&mut st, &sid, status);
    let id = d.id.clone();
    st.deployments.put(&id, d);
    st
}

fn image(s: &str) -> DeploymentImage {
    DeploymentImage::Image { image: s.to_string() }
}

fn ok_log(stage: &str) -> Log {
    Log {
        stage: stage.to_string(),
        command: String::new(),
        stdout: "done".to_string(),
        stderr: String::new(),
        success: true,
        start_ts: 5,
        end_ts: 6,
    }
}

#[test]
fn busy_reject() {
    let mut st = state_with(deployment("D1", "app", "S1", image("nginx")), ServerStatus::Healthy);
    let alice = user("alice");
    let first = st.deploy("D1", None, None, &alice, 100).ok().unwrap();
    assert_eq!(first.kind, ActionKind::Deployment(DeploymentVerb::Deploying));
    assert!(st.deployment_busy("D1"));
    let second = st.deploy("D1", None, None, &alice, 101);
    let err = second.err().unwrap();
    assert_eq!(err, CoreError::DeploymentBusy);
    assert_eq!(err.message(), "deployment busy");
    assert_eq!(st.updates.len(), 1);
    assert_eq!(st.updates[0].status, UpdateStatus::InProgress);
    assert!(matches!(&st.updates[0].target, ResourceTarget::Deployment(id) if id == "D1"));
}

#[test]
fn busy_rejects_other_verbs_too() {
    let mut st = state_with(deployment("D1", "app", "S1", image("nginx")), ServerStatus::Healthy);
    let alice = user("alice");
    let _p = st.deploy("D1", None, None, &alice, 100).ok().unwrap();
    assert_eq!(st.stop_container("D1", None, None, &alice, 101).err(), Some(CoreError::DeploymentBusy));
    assert_eq!(st.start_container("D1", &alice, 101).err(), Some(CoreError::DeploymentBusy));
    assert_eq!(st.updates.len(), 1);
}

#[test]
fn server_unreachable() {
    let mut st = state_with(deployment("D1", "app", "S1", image("nginx")), ServerStatus::NotOk);
    let alice = user("alice");
    let err = st.start_container("D1", &alice, 100).err().unwrap();
    assert_eq!(err, CoreError::ServerUnreachable);
    assert_eq!(err.message(), "cannot send action when server is unreachable or disabled");
    assert_eq!(st.updates.len(), 0);
    assert!(!st.deployment_busy("D1"));
}

#[test]
fn disabled_server_is_unreachable() {
    let mut st = state_with(deployment("D1", "app", "S1", image("nginx")), ServerStatus::Healthy);
    st.servers.put("S1", server("S1", false));
    let err = st.start_container("D1", &user("alice"), 100).err().unwrap();
    assert_eq!(err, CoreError::ServerUnreachable);
    assert_eq!(st.updates.len(), 0);
}

#[test]
fn missing_server_id_fails_first() {
    let mut st = state_with(deployment("D1", "app", "", image("nginx")), ServerStatus::Healthy);
    let err = st.start_container("D1", &user("alice"), 100).err().unwrap();
    assert_eq!(err, CoreError::NoServerConfigured);
    assert_eq!(err.message(), "deployment has no server configured");
    assert_eq!(st.updates.len(), 0);
}

#[test]
fn unknown_deployment_is_not_found() {
    let mut st = state_with(deployment("D1", "app", "S1", image("nginx")), ServerStatus::Healthy);
    assert_eq!(st.start_container("D9", &user("alice"), 100).err(), Some(CoreError::NotFound));
}

#[test]
fn build_image_resolution() {
    let image = DeploymentImage::Build { build_id: "B1".to_string(), version: None };
    let mut st = state_with(deployment("D1", "app", "S1", image), ServerStatus::Healthy);
    st.builds.put(
        "B1",
        Build {
            id: "B1".to_string(),
            name: "myapp-build".to_string(),
            image_name: "myapp".to_string(),
            version: "1.2.3".to_string(),
            docker_account: "dh".to_string(),
            permissions: vec![],
        },
    );
    let p = st.deploy("D1", None, None, &user("alice"), 100).ok().unwrap();
    match &p.request {
        PeripheryRequest::Deploy { deployment, .. } => {
            assert!(matches!(&deployment.image, DeploymentImage::Image { image } if image == "myapp:1.2.3"));
            assert_eq!(deployment.docker_account, "dh");
            assert_eq!(deployment.name, "app");
        }
        _ => panic!("expected a deploy request"),
    }
    assert_eq!(st.updates[p.update_index].version, Some("1.2.3".to_string()));
    assert_eq!(st.updates[p.update_index].operation, Operation::DeployContainer);
}

#[test]
fn build_image_keeps_explicit_version_and_account() {
    let image = DeploymentImage::Build { build_id: "B1".to_string(), version: Some("2.0.0".to_string()) };
    let mut d = deployment("D1", "app", "S1", image);
    d.docker_account = "mine".to_string();
    let mut st = state_with(d, ServerStatus::Healthy);
    st.builds.put(
        "B1",
        Build {
            id: "B1".to_string(),
            name: "b".to_string(),
            image_name: "myapp".to_string(),
            version: "1.2.3".to_string(),
            docker_account: "dh".to_string(),
            permissions: vec![],
        },
    );
    let p = st.deploy("D1", None, None, &user("alice"), 100).ok().unwrap();
    match &p.request {
        PeripheryRequest::Deploy { deployment, .. } => {
            assert!(matches!(&deployment.image, DeploymentImage::Image { image } if image == "myapp:2.0.0"));
            assert_eq!(deployment.docker_account, "mine");
        }
        _ => panic!("expected a deploy request"),
    }
}

#[test]
fn missing_build_is_not_found() {
    let image = DeploymentImage::Build { build_id: "B9".to_string(), version: None };
    let mut st = state_with(deployment("D1", "app", "S1", image), ServerStatus::Healthy);
    assert_eq!(st.deploy("D1", None, None, &user("alice"), 100).err(), Some(CoreError::NotFound));
    assert!(!st.deployment_busy("D1"));
    assert_eq!(st.updates.len(), 0);
}

#[test]
fn periphery_error_captured() {
    let mut st = state_with(deployment("D1", "app", "S1", image("nginx")), ServerStatus::Healthy);
    let p = st.stop_container("D1", None, None, &user("alice"), 100).ok().unwrap();
    match &p.request {
        PeripheryRequest::StopContainer { name, signal, time } => {
            assert_eq!(name, "app");
            assert_eq!(signal, "SIGTERM");
            assert_eq!(*time, 10);
        }
        _ => panic!("expected a stop request"),
    }
    let u = st.finish_action(p, Err("500 Internal Server Error".to_string()), 110).ok().unwrap();
    assert!(!u.success);
    assert_eq!(u.status, UpdateStatus::Complete);
    assert_eq!(u.logs.len(), 1);
    assert_eq!(u.logs[0].stage, "stop container");
    assert_eq!(u.logs[0].stderr, "500 Internal Server Error");
    assert!(!u.logs[0].success);
    assert_eq!(u.end_ts, Some(110));
    assert!(!st.deployment_busy("D1"));
    assert!(!st.updates[0].success);
}

#[test]
fn stop_uses_requested_signal_and_time() {
    let mut st = state_with(deployment("D1", "app", "S1", image("nginx")), ServerStatus::Healthy);
    let p = st
        .remove_container("D1", Some("SIGKILL".to_string()), Some(3), &user("alice"), 100)
        .ok()
        .unwrap();
    match &p.request {
        PeripheryRequest::RemoveContainer { signal, time, .. } => {
            assert_eq!(signal, "SIGKILL");
            assert_eq!(*time, 3);
        }
        _ => panic!("expected a remove request"),
    }
}

#[test]
fn update_exactly_once_on_success() {
    let mut st = state_with(deployment("D1", "app", "S1", image("nginx")), ServerStatus::Healthy);
    let p = st.start_container("D1", &user("alice"), 100).ok().unwrap();
    assert_eq!(st.updates.len(), 1);
    let u = st.finish_action(p, Ok(ok_log("start container")), 120).ok().unwrap();
    assert_eq!(st.updates.len(), 1);
    assert!(u.success);
    assert_eq!(st.updates[0].status, UpdateStatus::Complete);
    assert_eq!(st.updates[0].start_ts, 100);
    assert_eq!(st.updates[0].end_ts, Some(120));
    assert_eq!(st.updates[0].operator, "alice");
}

#[test]
fn end_never_precedes_start() {
    let mut st = state_with(deployment("D1", "app", "S1", image("nginx")), ServerStatus::Healthy);
    let p = st.start_container("D1", &user("alice"), 100).ok().unwrap();
    let u = st.finish_action(p, Ok(ok_log("start container")), 50).ok().unwrap();
    assert_eq!(u.end_ts, Some(100));
}

#[test]
fn busy_flag_released_after_finish() {
    let mut st = state_with(deployment("D1", "app", "S1", image("nginx")), ServerStatus::Healthy);
    let alice = user("alice");
    let p = st.deploy("D1", None, None, &alice, 100).ok().unwrap();
    assert!(st.deployment_busy("D1"));
    st.finish_action(p, Err("timeout".to_string()), 101).ok().unwrap();
    assert!(!st.deployment_busy("D1"));
    assert!(st.deploy("D1", None, None, &alice, 102).is_ok());
}

#[test]
fn permission_enforced() {
    let mut st = state_with(deployment("D1", "app", "S1", image("nginx")), ServerStatus::Healthy);
    let bob = user("bob");
    assert_eq!(st.deploy("D1", None, None, &bob, 100).err(), Some(CoreError::PermissionDenied(ResourceKind::Deployment)));
    assert_eq!(st.prune_images("S1", &bob, 100).err(), Some(CoreError::PermissionDenied(ResourceKind::Server)));
    assert_eq!(st.updates.len(), 0);
    assert!(!st.deployment_busy("D1"));
    assert!(!st.server_busy("S1"));
    assert!(st.deploy("D1", None, None, &admin(), 100).is_ok());
}

#[test]
fn read_level_cannot_execute() {
    let mut d = deployment("D1", "app", "S1", image("nginx"));
    d.permissions = vec![("carol".to_string(), PermissionLevel::Read)];
    let mut st = state_with(d, ServerStatus::Healthy);
    assert_eq!(st.start_container("D1", &user("carol"), 1).err(), Some(CoreError::PermissionDenied(ResourceKind::Deployment)));
}

#[test]
fn prune_pipeline() {
    let mut st = state_with(deployment("D1", "app", "S1", image("nginx")), ServerStatus::Healthy);
    let alice = user("alice");
    let p = st.prune_networks("S1", &alice, 100).ok().unwrap();
    assert!(matches!(p.request, PeripheryRequest::PruneNetworks));
    assert!(st.server_busy("S1"));
    assert_eq!(st.prune_containers("S1", &alice, 100).err(), Some(CoreError::ServerBusy));
    let u = st.finish_action(p, Err("refused".to_string()), 101).ok().unwrap();
    assert_eq!(u.logs[0].stage, "prune networks");
    assert!(!u.success);
    assert_eq!(u.operation, Operation::PruneNetworksServer);
    assert!(!st.server_busy("S1"));
    let p = st.prune_images("S1", &alice, 102).ok().unwrap();
    let u = st.finish_action(p, Ok(ok_log("prune images")), 103).ok().unwrap();
    assert!(u.success);
    assert_eq!(st.updates.len(), 2);
}

#[test]
fn stop_all_containers_partial_failure() {
    let mut st = State::new();
    st.servers.put("S", server("S", true));
    cache(&mut st, "S", ServerStatus::Healthy);
    for (id, name) in [("d1", "D1"), ("d2", "D2"), ("d3", "D3")] {
        st.deployments.put(id, deployment(id, name, "S", image("nginx")));
    }
    st.deployments.put("other", deployment("other", "X", "T", image("nginx")));
    let alice = user("alice");
    let all = st.stop_all_containers("S", &alice, 100).ok().unwrap();
    assert_eq!(all.deployments.len(), 3);
    assert!(st.server_busy("S"));
    let mut outcomes = Vec::new();
    for (id, _) in all.deployments.iter() {
        let p = st.stop_container(id, None, None, &alice, 101).ok().unwrap();
        let res = if id == "d2" { Err("connection refused".to_string()) } else { Ok(ok_log("stop container")) };
        outcomes.push(st.finish_action(p, res, 102));
    }
    let u = st.finish_stop_all_containers(all, outcomes, 103).ok().unwrap();
    assert!(matches!(&u.target, ResourceTarget::Server(s) if s == "S"));
    assert_eq!(u.logs.len(), 2);
    assert_eq!(u.logs[0].stage, "stopping containers");
    assert_eq!(u.logs[0].stdout, "D1 (d1)\nD2 (d2)\nD3 (d3)");
    assert_eq!(u.logs[1].stage, "stop container failure");
    assert_eq!(u.logs[1].stderr, "failed to stop container D2 (d2)");
    assert!(!u.logs[1].success);
    assert!(!u.success);
    assert!(!st.server_busy("S"));
    assert_eq!(st.updates.len(), 4);
}

#[test]
fn stop_all_counts_each_failure() {
    let mut st = State::new();
    st.servers.put("S", server("S", true));
    cache(&mut st, "S", ServerStatus::Healthy);
    st.deployments.put("d1", deployment("d1", "D1", "S", image("a")));
    st.deployments.put("d2", deployment("d2", "D2", "S", image("b")));
    let alice = user("alice");
    let all = st.stop_all_containers("S", &alice, 100).ok().unwrap();
    let outcomes = vec![Err(CoreError::DeploymentBusy)];
    assert_eq!(all.deployments.len(), 2);
    let u = st.finish_stop_all_containers(all, outcomes, 101).ok().unwrap();
    assert_eq!(u.logs.len(), 3);
    assert_eq!(u.logs[1].stderr, "failed to stop container D1 (d1)\n\ndeployment busy");
    assert_eq!(u.logs[2].stderr, "failed to stop container D2 (d2)");
    assert!(!u.success);
}

#[test]
fn stop_all_with_no_failures_succeeds() {
    let mut st = State::new();
    st.servers.put("S", server("S", true));
    cache(&mut st, "S", ServerStatus::Healthy);
    let alice = user("alice");
    let all = st.stop_all_containers("S", &alice, 100).ok().unwrap();
    assert_eq!(all.deployments.len(), 0);
    let u = st.finish_stop_all_containers(all, vec![], 101).ok().unwrap();
    assert_eq!(u.logs.len(), 1);
    assert!(u.success);
    assert_eq!(u.operation, Operation::StopAllContainers);
}
