//! Coordination core of an interactive client for a remote media-playback
//! session.
//!
//! The library holds the decision logic of the runtime: the shared session
//! store, the one-shot bootstrap that must succeed before anything else runs,
//! the event queue connecting producers to the interactive loop, the
//! session-watcher's refresh/retry policy, the input normalization, and the
//! process-level state machine.  Everything here is a function from plain
//! values to plain values; the surrounding process performs the remote calls,
//! spawns the background activities and feeds their outcomes back in.

pub mod bootstrap;
pub mod events;
pub mod input;
pub mod interactive;
pub mod machine;
pub mod state;
pub mod watcher;
