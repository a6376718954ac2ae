use spotify_player::bootstrap::{initialize, BootstrapError, ServiceError};
use spotify_player::machine::{Phase, ProcessEvent, ProcessState};
use spotify_player::state::{Device, SharedState};

fn device(id: &str, name: &str, active: bool) -> Device {
    Device { id: String::from(id), name: String::from(name), active }
}

#[test]
fn two_devices_enter_steady_state() {
    let devices = vec![device("d1", "Kitchen", true), device("d2", "Desk", false)];
    let session = initialize(Ok(1_000), Ok(devices)).expect("bootstrap should succeed");
    assert_eq!(session.credential_expiry, 1_000);
    assert_eq!(session.devices.len(), 2);
    assert_eq!(session.devices[0].id, "d1");
    assert_eq!(session.devices[1].id, "d2");

    let state = SharedState::new(session);
    assert_eq!(state.snapshot().devices.len(), 2);

    let process = ProcessState::init().step(ProcessEvent::BootstrapSucceeded);
    assert_eq!(process.phase, Phase::SteadyState);
    assert!(process.watcher_running && process.input_running);
}

#[test]
fn no_devices_is_fatal_with_diagnostic() {
    let outcome = initialize(Ok(1_000), Ok(Vec::new()));
    let err = outcome.expect_err("empty device list must abort bootstrap");
    assert_eq!(err, BootstrapError::NoDeviceAvailable);
    assert_eq!(
        err.diagnostic(),
        "no active device available. Please connect to one and try again."
    );

    let process = ProcessState::init().step(ProcessEvent::BootstrapFailed);
    assert_eq!(process.phase, Phase::Terminated);
    assert_ne!(process.exit_status, Some(0));
    assert!(!process.watcher_ever_started);
    assert!(!process.input_ever_started);
}

#[test]
fn credential_failure_aborts_bootstrap() {
    let devices = vec![device("d1", "Kitchen", true)];
    let err = initialize(Err(ServiceError::Auth), Ok(devices)).expect_err("must fail");
    assert_eq!(err, BootstrapError::AuthFailure);
    assert_eq!(err.diagnostic(), "failed to authenticate with the playback service.");
}

#[test]
fn device_enumeration_failure_aborts_bootstrap() {
    let err = initialize(Ok(1_000), Err(ServiceError::Transient)).expect_err("must fail");
    assert_eq!(err, BootstrapError::AuthFailure);
}

#[test]
fn successful_bootstrap_starts_with_initial_playback() {
    let devices = vec![device("d1", "Kitchen", true)];
    let session = initialize(Ok(42), Ok(devices)).expect("bootstrap should succeed");
    assert_eq!(session.playback.track, "");
    assert_eq!(session.playback.position_ms, 0);
    assert!(!session.playback.playing);
}
