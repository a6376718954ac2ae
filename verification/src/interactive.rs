//! The interactive loop's event handling.
//!
//! The foreground loop blocks on the next event from the queue and hands it
//! to `handle_event`: user input becomes an optimistic state edit and/or a
//! command for the session watcher, a tick asks the caller for a render pass
//! over a fresh snapshot, a remote change is reconciled into the shared
//! state, and the shutdown event sets the termination flag the two
//! background activities watch and tells the caller to return and join them.

use crate::events::Command;
use crate::events::CommandQueue;
use crate::events::Event;
use crate::events::UserAction;
use crate::state::SharedState;
use vstd::prelude::*;

verus! {

/// What the caller of `handle_event` does next.
#[derive(Clone, Copy, Debug, PartialEq, Eq)]
pub enum LoopOutcome {
    /// Keep looping on the next event.
    Continue,
    /// Run a render pass over a fresh snapshot, then keep looping.
    Render,
    /// Shutdown: the termination flag is set; return, then join the two
    /// background activities.
    Exit,
}

/// Handles one event.  Exactly the shutdown event sets the termination flag
/// and ends the loop; a tick asks for a render and changes nothing; a remote
/// change overwrites the playback snapshot; a toggle flips the playing flag
/// optimistically and enqueues the matching command; every other user action
/// only enqueues its command.
pub fn handle_event(
    state: &mut SharedState,
    commands: &mut CommandQueue,
    shutdown_flag: &mut bool,
    ev: Event,
) -> (r: LoopOutcome)
    ensures
        r is Exit <==> ev is Shutdown,
        *final(shutdown_flag) == (*old(shutdown_flag) || ev is Shutdown),
        match ev {
            Event::Shutdown => final(state).session() == old(state).session() && final(commands).contents() == old(commands).contents(),
            Event::Tick(_) => r is Render && final(state).session() == old(state).session()
                && final(commands).contents() == old(commands).contents(),
            Event::RemoteChange(snapshot) => {
                &&& r is Continue
                &&& final(state).session().playback == snapshot
                &&& final(state).session().credential_expiry == old(state).session().credential_expiry
                &&& final(state).session().devices == old(state).session().devices
                &&& final(commands).contents() == old(commands).contents()
            },
            Event::UserInput(action) => {
                &&& r is Continue
                &&& final(state).session().credential_expiry == old(state).session().credential_expiry
                &&& final(state).session().devices == old(state).session().devices
                &&& match action {
                    UserAction::TogglePlayback => {
                        &&& final(state).session().playback.playing == !old(state).session().playback.playing
                        &&& final(state).session().playback.track == old(state).session().playback.track
                        &&& final(state).session().playback.position_ms == old(state).session().playback.position_ms
                        &&& final(commands).contents() == old(commands).contents().push(
                            if old(state).session().playback.playing {
                                Command::Pause
                            } else {
                                Command::Play
                            },
                        )
                    },
                    UserAction::NextTrack => final(state).session().playback == old(state).session().playback && final(commands).contents() == old(commands).contents().push(Command::SkipNext),
                    UserAction::PreviousTrack => final(state).session().playback == old(state).session().playback && final(commands).contents() == old(commands).contents().push(Command::SkipPrevious),
                    UserAction::SelectDevice(id) => final(state).session().playback == old(state).session().playback && final(commands).contents() == old(commands).contents().push(Command::SetDevice(id)),
                    UserAction::SetVolume(level) => final(state).session().playback == old(state).session().playback && final(commands).contents() == old(commands).contents().push(Command::SetVolume(level)),
                }
            },
        },
{
    match ev {
        Event::Shutdown => {
            *shutdown_flag = true;
            LoopOutcome::Exit
        },
        Event::Tick(_) => LoopOutcome::Render,
        Event::RemoteChange(snapshot) => {
            state.set_playback(snapshot);
            LoopOutcome::Continue
        },
        Event::UserInput(action) => {
            match action {
                UserAction::TogglePlayback => {
                    let playing = state.snapshot().playback.playing;
                    state.toggle_playing();
                    if playing {
                        commands.push(Command::Pause);
                    } else {
                        commands.push(Command::Play);
                    }
                },
                UserAction::NextTrack => commands.push(Command::SkipNext),
                UserAction::PreviousTrack => commands.push(Command::SkipPrevious),
                UserAction::SelectDevice(id) => commands.push(Command::SetDevice(id)),
                UserAction::SetVolume(level) => commands.push(Command::SetVolume(level)),
            }
            LoopOutcome::Continue
        },
    }
}

} // verus!
