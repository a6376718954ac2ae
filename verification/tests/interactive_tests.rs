use spotify_player::events::{Command, CommandQueue, Event, UserAction};
use spotify_player::interactive::{handle_event, LoopOutcome};
use spotify_player::state::{Device, PlaybackSnapshot, SessionState, SharedState};

fn fixture() -> (SharedState, CommandQueue, bool) {
    let session = SessionState {
        credential_expiry: 1_000,
        devices: vec![Device { id: String::from("d1"), name: String::from("Desk"), active: true }],
        playback: PlaybackSnapshot {
            track: String::from("track-1"),
            position_ms: 500,
            playing: false,
        },
    };
    (SharedState::new(session), CommandQueue::new(), false)
}

#[test]
fn toggle_while_paused_plays_optimistically() {
    let (mut state, mut commands, mut shutdown) = fixture();
    let ev = Event::UserInput(UserAction::TogglePlayback);
    let outcome = handle_event(&mut state, &mut commands, &mut shutdown, ev);
    assert_eq!(outcome, LoopOutcome::Continue);
    assert!(state.snapshot().playback.playing, "optimistic edit flips the flag");
    assert_eq!(commands.pop(), Some(Command::Play));
    assert!(!shutdown);
}

#[test]
fn toggle_while_playing_pauses_optimistically() {
    let (mut state, mut commands, mut shutdown) = fixture();
    handle_event(&mut state, &mut commands, &mut shutdown, Event::UserInput(UserAction::TogglePlayback));
    commands.pop();
    handle_event(&mut state, &mut commands, &mut shutdown, Event::UserInput(UserAction::TogglePlayback));
    assert!(!state.snapshot().playback.playing);
    assert_eq!(commands.pop(), Some(Command::Pause));
}

#[test]
fn track_and_device_and_volume_actions_become_commands() {
    let (mut state, mut commands, mut shutdown) = fixture();
    handle_event(&mut state, &mut commands, &mut shutdown, Event::UserInput(UserAction::NextTrack));
    handle_event(&mut state, &mut commands, &mut shutdown, Event::UserInput(UserAction::PreviousTrack));
    handle_event(
        &mut state,
        &mut commands,
        &mut shutdown,
        Event::UserInput(UserAction::SelectDevice(String::from("d2"))),
    );
    handle_event(&mut state, &mut commands, &mut shutdown, Event::UserInput(UserAction::SetVolume(40)));
    assert_eq!(commands.pop(), Some(Command::SkipNext));
    assert_eq!(commands.pop(), Some(Command::SkipPrevious));
    assert_eq!(commands.pop(), Some(Command::SetDevice(String::from("d2"))));
    assert_eq!(commands.pop(), Some(Command::SetVolume(40)));
    assert_eq!(commands.pop(), None);
}

#[test]
fn tick_asks_for_a_render_and_changes_nothing() {
    let (mut state, mut commands, mut shutdown) = fixture();
    let before = state.snapshot();
    let outcome = handle_event(&mut state, &mut commands, &mut shutdown, Event::Tick(7));
    assert_eq!(outcome, LoopOutcome::Render);
    let after = state.snapshot();
    assert_eq!(after.credential_expiry, before.credential_expiry);
    assert_eq!(after.playback, before.playback);
    assert_eq!(after.devices, before.devices);
    assert_eq!(commands.len(), 0);
}

#[test]
fn remote_change_reconciles_the_snapshot() {
    let (mut state, mut commands, mut shutdown) = fixture();
    let pushed = PlaybackSnapshot {
        track: String::from("track-9"),
        position_ms: 10,
        playing: true,
    };
    let outcome = handle_event(
        &mut state,
        &mut commands,
        &mut shutdown,
        Event::RemoteChange(pushed.clone()),
    );
    assert_eq!(outcome, LoopOutcome::Continue);
    assert_eq!(state.snapshot().playback, pushed);
    assert_eq!(state.snapshot().credential_expiry, 1_000);
}

#[test]
fn shutdown_event_sets_the_flag_and_exits() {
    let (mut state, mut commands, mut shutdown) = fixture();
    let outcome = handle_event(&mut state, &mut commands, &mut shutdown, Event::Shutdown);
    assert_eq!(outcome, LoopOutcome::Exit);
    assert!(shutdown);
    assert_eq!(commands.len(), 0);
}
