use myr::connection_manager::{BackendError, ConnectionManager, ConnectionManagerError, ConnectionStatus};
use myr::profiles::ConnectionProfile;

fn sample_profile() -> ConnectionProfile {
    ConnectionProfile::new("local", "127.0.0.1", "root")
}

fn connect(manager: &mut ConnectionManager) {
    manager.begin_connect().expect("no session yet");
    let latency = manager
        .connect(sample_profile(), Ok(()), 4, 1_000)
        .expect("connect should succeed");
    assert_eq!(latency, 4);
}

#[test]
fn connect_updates_status_and_profile() {
    let mut manager = ConnectionManager::new();
    connect(&mut manager);
    let status = manager.status();
    assert!(status.is_connected);
    assert_eq!(status.profile_name.as_deref(), Some("local"));
    assert_eq!(status.last_latency_ms, Some(4));
    assert_eq!(status.last_health_check_at_ms, Some(1_000));
}

#[test]
fn health_check_requires_active_connection() {
    let mut manager = ConnectionManager::new();
    let err = manager.begin_health_check().expect_err("no session");
    assert!(matches!(err, ConnectionManagerError::NotConnected));
    let err = manager.health_check(Ok(()), 1, 1).expect_err("no session");
    assert!(matches!(err, ConnectionManagerError::NotConnected));
}

#[test]
fn connect_fails_when_already_connected() {
    let mut manager = ConnectionManager::new();
    connect(&mut manager);
    let err = manager.begin_connect().expect_err("second connect should fail");
    assert!(matches!(
        err,
        ConnectionManagerError::AlreadyConnected { ref active_profile } if active_profile == "local"
    ));
    let err = manager
        .connect(sample_profile(), Ok(()), 1, 1)
        .expect_err("second connect should fail");
    assert!(matches!(err, ConnectionManagerError::AlreadyConnected { .. }));
}

#[test]
fn disconnect_is_idempotent_and_clears_status() {
    let mut manager = ConnectionManager::new();
    connect(&mut manager);
    manager.disconnect(Ok(())).expect("disconnect should succeed");
    manager.disconnect(Ok(())).expect("disconnect should stay idempotent");
    assert_eq!(manager.status(), ConnectionStatus::disconnected());
}

#[test]
fn failed_connect_does_not_set_active_connection() {
    let mut manager = ConnectionManager::new();
    let err = manager
        .connect(sample_profile(), Err(BackendError::new("connect failed")), 0, 0)
        .expect_err("connect should fail");
    assert!(matches!(err, ConnectionManagerError::Backend(ref e) if e.message() == "connect failed"));
    assert!(manager.active_profile().is_none());
}

#[test]
fn health_check_records_latency() {
    let mut manager = ConnectionManager::new();
    connect(&mut manager);
    manager.begin_health_check().expect("session");
    assert_eq!(manager.health_check(Ok(()), 9, 2_000), Ok(9));
    assert_eq!(manager.status().last_latency_ms, Some(9));
    assert_eq!(manager.status().last_health_check_at_ms, Some(2_000));
}

#[test]
fn disconnect_after_backend_error_still_clears_status() {
    let mut manager = ConnectionManager::new();
    connect(&mut manager);
    let err = manager.disconnect(Err(BackendError::new("broken pipe"))).expect_err("backend failed");
    assert!(matches!(err, ConnectionManagerError::Backend(_)));
    assert!(manager.active_profile().is_none());
    manager.disconnect(Ok(())).expect("idempotent");
    assert_eq!(manager.status(), ConnectionStatus::disconnected());
}
