use monitor_core::entities::{DockerContainerState, PermissionLevel, Procedure, ProcedureStage, Server, ServerStatus, SeverityLevel, User};
use monitor_core::monitor::{container_state_changes, derive_status, reachability_alert, severity_raised};
use monitor_core::state::{CoreError, State};

#[test]
fn status_derivation() {
    assert_eq!(derive_status(false, true, true), ServerStatus::Disabled);
    assert_eq!(derive_status(true, true, true), ServerStatus::Healthy);
    assert_eq!(derive_status(true, true, false), ServerStatus::NotOk);
    assert_eq!(derive_status(true, false, true), ServerStatus::NotOk);
}

#[test]
fn reachability_transitions() {
    assert_eq!(reachability_alert(Some(ServerStatus::Healthy), ServerStatus::NotOk), Some(SeverityLevel::Critical));
    assert_eq!(reachability_alert(Some(ServerStatus::NotOk), ServerStatus::Healthy), Some(SeverityLevel::Normal));
    assert_eq!(reachability_alert(Some(ServerStatus::Healthy), ServerStatus::Healthy), None);
    assert_eq!(reachability_alert(None, ServerStatus::NotOk), None);
}

#[test]
fn severity_up_transitions() {
    assert!(severity_raised(SeverityLevel::Normal, SeverityLevel::Warning));
    assert!(severity_raised(SeverityLevel::Warning, SeverityLevel::Critical));
    assert!(!severity_raised(SeverityLevel::Critical, SeverityLevel::Warning));
    assert!(!severity_raised(SeverityLevel::Warning, SeverityLevel::Warning));
}

#[test]
fn container_changes_between_polls() {
    let prev = vec![
        ("web".to_string(), DockerContainerState::Running),
        ("db".to_string(), DockerContainerState::Running),
    ];
    let curr = vec![
        ("web".to_string(), DockerContainerState::Running),
        ("db".to_string(), DockerContainerState::Exited),
        ("new".to_string(), DockerContainerState::Created),
    ];
    let changes = container_state_changes(&prev, &curr);
    assert_eq!(changes, vec![("db".to_string(), DockerContainerState::Running, DockerContainerState::Exited)]);
}

#[test]
fn create_full_server_and_procedure() {
    let mut st = State::new();
    let alice = User { id: "alice".to_string(), is_admin: false, create_server_permissions: true };
    let s = Server {
        id: "s1".to_string(),
        name: "one".to_string(),
        address: "https://one".to_string(),
        enabled: false,
        region: Some("eu".to_string()),
        permissions: vec![],
        created_at: 0,
        updated_at: 0,
    };
    let created = st.create_full_server(s, &alice, 50).ok().unwrap();
    assert_eq!(created.region, Some("eu".to_string()));
    assert!(!created.enabled);
    assert_eq!(created.permissions, vec![("alice".to_string(), PermissionLevel::Update)]);
    assert_eq!(st.updates.len(), 2);
    let p = Procedure {
        id: "proc-a".to_string(),
        name: "nightly".to_string(),
        stages: vec![ProcedureStage { operation: "Deploy".to_string(), target_id: "d1".to_string() }],
        permissions: vec![],
        created_at: 0,
        updated_at: 0,
    };
    let full = st.create_full_procedure(p, &alice, 60).ok().unwrap();
    assert_eq!(full.stages.len(), 1);
    assert_eq!(st.updates.len(), 4);
    let again = Procedure {
        id: "proc-a".to_string(),
        name: "x".to_string(),
        stages: vec![],
        permissions: vec![],
        created_at: 0,
        updated_at: 0,
    };
    assert_eq!(st.create_full_procedure(again, &alice, 61).err(), Some(CoreError::IdTaken));
}
