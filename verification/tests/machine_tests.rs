use spotify_player::machine::{Phase, ProcessEvent, ProcessState};

#[test]
fn initial_state_is_bootstrapping_with_nothing_started() {
    let s = ProcessState::init();
    assert_eq!(s.phase, Phase::Bootstrapping);
    assert!(!s.watcher_running && !s.input_running);
    assert!(!s.watcher_ever_started && !s.input_ever_started);
    assert_eq!(s.exit_status, None);
}

#[test]
fn bootstrap_failure_terminates_nonzero_without_activities() {
    let s = ProcessState::init().step(ProcessEvent::BootstrapFailed);
    assert_eq!(s.phase, Phase::Terminated);
    assert_ne!(s.exit_status, Some(0));
    assert!(s.exit_status.is_some());
    assert!(!s.watcher_ever_started && !s.input_ever_started);
    assert!(!s.watcher_running && !s.input_running);
}

#[test]
fn shutdown_terminates_cleanly_watcher_first() {
    let s = ProcessState::init()
        .step(ProcessEvent::BootstrapSucceeded)
        .step(ProcessEvent::ShutdownRequested);
    assert_eq!(s.phase, Phase::ShuttingDown);
    let s = s.step(ProcessEvent::WatcherStopped);
    assert_eq!(s.phase, Phase::ShuttingDown);
    assert!(!s.watcher_running && s.input_running);
    let s = s.step(ProcessEvent::InputStopped);
    assert_eq!(s.phase, Phase::Terminated);
    assert!(!s.watcher_running && !s.input_running);
    assert_eq!(s.exit_status, Some(0));
}

#[test]
fn shutdown_terminates_cleanly_input_first() {
    let s = ProcessState::init()
        .step(ProcessEvent::BootstrapSucceeded)
        .step(ProcessEvent::ShutdownRequested)
        .step(ProcessEvent::InputStopped)
        .step(ProcessEvent::WatcherStopped);
    assert_eq!(s.phase, Phase::Terminated);
    assert!(!s.watcher_running && !s.input_running);
    assert_eq!(s.exit_status, Some(0));
}

#[test]
fn triggers_out_of_phase_change_nothing() {
    let boot = ProcessState::init();
    assert_eq!(boot.step(ProcessEvent::ShutdownRequested), boot);
    assert_eq!(boot.step(ProcessEvent::WatcherStopped), boot);

    let steady = boot.step(ProcessEvent::BootstrapSucceeded);
    assert_eq!(steady.step(ProcessEvent::BootstrapSucceeded), steady);
    assert_eq!(steady.step(ProcessEvent::WatcherStopped), steady);
}
