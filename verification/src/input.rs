//! The input source's decision logic.
//!
//! The background input loop observes raw key presses, periodic ticks and
//! remote-pushed playback notifications, and publishes each as a normalized
//! event on the event queue.  The observing itself blocks in the surrounding
//! process; what the loop decides — exit on shutdown, which event a raw
//! observation becomes, or nothing — is the function here.  The shutdown flag
//! is consulted at every iteration boundary, so a signaled loop terminates
//! within one poll interval.

use crate::events::Event;
use crate::events::UserAction;
use crate::state::PlaybackSnapshot;
use vstd::prelude::*;

verus! {

/// A raw observation handed in by the input collaborator.
#[derive(Clone, Debug, PartialEq, Eq)]
pub enum RawInput {
    /// A key the user pressed.
    KeyPress(char),
    /// A periodic tick carrying the current timestamp.
    TimerTick(u64),
    /// A playback change the remote service pushed.
    RemoteNotification(PlaybackSnapshot),
}

/// The key bindings: which user action a key press means, if any.
pub open spec fn key_action_spec(c: char) -> Option<UserAction> {
    if c == ' ' {
        Option::Some(UserAction::TogglePlayback)
    } else if c == 'n' {
        Option::Some(UserAction::NextTrack)
    } else if c == 'p' {
        Option::Some(UserAction::PreviousTrack)
    } else {
        Option::None
    }
}

/// Which normalized event a raw observation becomes: a bound key becomes a
/// user-input event, `q` becomes the shutdown event, an unbound key becomes
/// nothing, and ticks and remote notifications pass through under their
/// event tags.
pub open spec fn normalize_spec(raw: RawInput) -> Option<Event> {
    match raw {
        RawInput::KeyPress(c) => if c == 'q' {
            Option::Some(Event::Shutdown)
        } else {
            match key_action_spec(c) {
                Option::Some(action) => Option::Some(Event::UserInput(action)),
                Option::None => Option::None,
            }
        },
        RawInput::TimerTick(t) => Option::Some(Event::Tick(t)),
        RawInput::RemoteNotification(s) => Option::Some(Event::RemoteChange(s)),
    }
}

/// Normalizes one raw observation into the event to publish, if any.
pub fn normalize(raw: RawInput) -> (r: Option<Event>)
    ensures
        r == normalize_spec(raw),
{
    match raw {
        RawInput::KeyPress(c) => {
            if c == 'q' {
                Option::Some(Event::Shutdown)
            } else if c == ' ' {
                Option::Some(Event::UserInput(UserAction::TogglePlayback))
            } else if c == 'n' {
                Option::Some(Event::UserInput(UserAction::NextTrack))
            } else if c == 'p' {
                Option::Some(Event::UserInput(UserAction::PreviousTrack))
            } else {
                Option::None
            }
        },
        RawInput::TimerTick(t) => Option::Some(Event::Tick(t)),
        RawInput::RemoteNotification(s) => Option::Some(Event::RemoteChange(s)),
    }
}

/// What one iteration of the input loop does.
#[derive(Clone, Debug, PartialEq, Eq)]
pub enum InputStep {
    /// Shutdown was signaled: stop.
    Exit,
    /// Publish this event on the event queue.
    Publish(Event),
    /// Nothing observed, or an unbound key: poll again.
    Idle,
}

/// Decides one iteration of the input loop.  The shutdown flag is checked
/// before anything else, so a signaled loop exits within this very
/// iteration; otherwise a raw observation is normalized and published.
pub fn input_step(shutdown: bool, raw: Option<RawInput>) -> (r: InputStep)
    ensures
        shutdown ==> r == InputStep::Exit,
        !shutdown ==> match raw {
            Option::Some(x) => match normalize_spec(x) {
                Option::Some(e) => r == InputStep::Publish(e),
                Option::None => r == InputStep::Idle,
            },
            Option::None => r == InputStep::Idle,
        },
{
    if shutdown {
        InputStep::Exit
    } else {
        match raw {
            Option::Some(x) => match normalize(x) {
                Option::Some(e) => InputStep::Publish(e),
                Option::None => InputStep::Idle,
            },
            Option::None => InputStep::Idle,
        }
    }
}

} // verus!
