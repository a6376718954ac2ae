use spotify_player::state::{Device, PlaybackSnapshot, SessionState, SharedState};

fn session() -> SessionState {
    SessionState {
        credential_expiry: 1_000,
        devices: vec![
            Device { id: String::from("d1"), name: String::from("Desk"), active: true },
            Device { id: String::from("d2"), name: String::from("Kitchen"), active: false },
        ],
        playback: PlaybackSnapshot {
            track: String::from("track-1"),
            position_ms: 500,
            playing: true,
        },
    }
}

#[test]
fn snapshot_is_a_consistent_copy() {
    let state = SharedState::new(session());
    let snap = state.snapshot();
    assert_eq!(snap.credential_expiry, 1_000);
    assert_eq!(snap.devices.len(), 2);
    assert_eq!(snap.devices[0].id, "d1");
    assert_eq!(snap.devices[1].name, "Kitchen");
    assert_eq!(snap.playback.track, "track-1");
}

#[test]
fn snapshot_does_not_track_later_writes() {
    let mut state = SharedState::new(session());
    let before = state.snapshot();
    state.set_credential_expiry(2_000);
    assert_eq!(before.credential_expiry, 1_000, "a snapshot is a copy, not a view");
    assert_eq!(state.snapshot().credential_expiry, 2_000);
}

#[test]
fn writers_touch_only_their_field() {
    let mut state = SharedState::new(session());
    state.set_credential_expiry(2_000);
    assert_eq!(state.snapshot().devices.len(), 2);
    assert_eq!(state.snapshot().playback.track, "track-1");

    state.set_devices(vec![Device {
        id: String::from("d3"),
        name: String::from("Phone"),
        active: true,
    }]);
    assert_eq!(state.snapshot().credential_expiry, 2_000);
    assert_eq!(state.snapshot().devices.len(), 1);

    let fresh = PlaybackSnapshot { track: String::from("track-2"), position_ms: 0, playing: false };
    state.set_playback(fresh.clone());
    assert_eq!(state.snapshot().playback, fresh);
    assert_eq!(state.snapshot().devices.len(), 1);
}

#[test]
fn toggle_playing_flips_only_the_flag() {
    let mut state = SharedState::new(session());
    state.toggle_playing();
    let snap = state.snapshot();
    assert!(!snap.playback.playing);
    assert_eq!(snap.playback.track, "track-1");
    assert_eq!(snap.playback.position_ms, 500);
}

#[test]
fn initial_playback_is_empty_and_paused() {
    let p = PlaybackSnapshot::initial();
    assert_eq!(p.track, "");
    assert_eq!(p.position_ms, 0);
    assert!(!p.playing);
}
