//! Session data and the shared store.
//!
//! `SessionState` is the single logical instance of session data: credential
//! expiry, the ordered device list, and the current playback snapshot.  It is
//! created at bootstrap and mutated for the process lifetime.  `SharedState`
//! is the store that every component reaches it through: `snapshot` hands out
//! a consistent copy, and the mutators are the only writes.  The exclusion
//! primitive that makes the store safe to share between activities lives in
//! the surrounding process; the store itself never exposes it.

use vstd::prelude::*;

verus! {

/// A playback device known to the remote service.
#[derive(Debug, PartialEq, Eq)]
pub struct Device {
    pub id: String,
    pub name: String,
    pub active: bool,
}

impl Clone for Device {
    fn clone(&self) -> (r: Self)
        ensures
            r == *self,
    {
        Device { id: self.id.clone(), name: self.name.clone(), active: self.active }
    }
}

/// The current playback snapshot: track, position, paused/playing.
#[derive(Debug, PartialEq, Eq)]
pub struct PlaybackSnapshot {
    pub track: String,
    pub position_ms: u64,
    pub playing: bool,
}

impl Clone for PlaybackSnapshot {
    fn clone(&self) -> (r: Self)
        ensures
            r == *self,
    {
        PlaybackSnapshot { track: self.track.clone(), position_ms: self.position_ms, playing: self.playing }
    }
}

impl PlaybackSnapshot {
    /// The snapshot before any playback has been observed: no track, position
    /// zero, not playing.
    pub fn initial() -> (r: Self)
        ensures
            r.track@ == Seq::<char>::empty(),
            r.position_ms == 0,
            !r.playing,
    {
        PlaybackSnapshot { track: String::new(), position_ms: 0, playing: false }
    }
}

/// The session data: credential expiry, device list, playback snapshot.
#[derive(Debug, PartialEq, Eq)]
pub struct SessionState {
    pub credential_expiry: u64,
    pub devices: Vec<Device>,
    pub playback: PlaybackSnapshot,
}

impl SessionState {
    /// The invariant of steady state: the credential has not expired and at
    /// least one device is known.
    pub open spec fn steady_ok(self, now: u64) -> bool {
        &&& self.credential_expiry > now
        &&& self.devices@.len() > 0
    }
}

impl Clone for SessionState {
    fn clone(&self) -> (r: Self)
        ensures
            r.credential_expiry == self.credential_expiry,
            r.devices@ == self.devices@,
            r.playback == self.playback,
    {
        let devices = clone_devices(&self.devices);
        SessionState {
            credential_expiry: self.credential_expiry,
            devices,
            playback: self.playback.clone(),
        }
    }
}

fn clone_devices(v: &Vec<Device>) -> (r: Vec<Device>)
    ensures
        r@ == v@,
{
    let mut r: Vec<Device> = Vec::new();
    let mut i: usize = 0;
    while i < v.len()
        invariant
            i <= v.len(),
            r@ == v@.take(i as int),
        decreases v.len() - i,
    {
        r.push(v[i].clone());
        i = i + 1;
        proof {
            assert(r@ =~= v@.take(i as int));
        }
    }
    proof {
        assert(v@.take(v.len() as int) =~= v@);
    }
    r
}

/// The store of session data shared by every component.  Writers are mutually
/// exclusive and readers never run concurrently with a writer; the store
/// exposes only a copying read and field-at-a-time writes, never the
/// exclusion primitive itself.
pub struct SharedState {
    session: SessionState,
}

impl SharedState {
    /// The session data the store currently holds.
    pub closed spec fn session(self) -> SessionState {
        self.session
    }

    /// Creates the store around the session that bootstrap produced.
    pub fn new(session: SessionState) -> (r: Self)
        ensures
            r.session() == session,
    {
        SharedState { session }
    }

    /// An immutable, consistent copy of the session data.
    pub fn snapshot(&self) -> (r: SessionState)
        ensures
            r.credential_expiry == self.session().credential_expiry,
            r.devices@ == self.session().devices@,
            r.playback == self.session().playback,
    {
        self.session.clone()
    }

    /// Writes a new credential expiry; every other field keeps its value.
    pub fn set_credential_expiry(&mut self, expiry: u64)
        ensures
            final(self).session().credential_expiry == expiry,
            final(self).session().devices == old(self).session().devices,
            final(self).session().playback == old(self).session().playback,
    {
        self.session.credential_expiry = expiry;
    }

    /// Replaces the device list; every other field keeps its value.
    pub fn set_devices(&mut self, devices: Vec<Device>)
        ensures
            final(self).session().devices == devices,
            final(self).session().credential_expiry == old(self).session().credential_expiry,
            final(self).session().playback == old(self).session().playback,
    {
        self.session.devices = devices;
    }

    /// Flips the paused/playing flag of the snapshot — the optimistic edit
    /// the interactive loop makes while the matching command is still on its
    /// way to the service; every other field keeps its value.
    pub fn toggle_playing(&mut self)
        ensures
            final(self).session().playback.playing == !old(self).session().playback.playing,
            final(self).session().playback.track == old(self).session().playback.track,
            final(self).session().playback.position_ms == old(self).session().playback.position_ms,
            final(self).session().credential_expiry == old(self).session().credential_expiry,
            final(self).session().devices == old(self).session().devices,
    {
        self.session.playback.playing = !self.session.playback.playing;
    }

    /// Replaces the playback snapshot; every other field keeps its value.
    pub fn set_playback(&mut self, playback: PlaybackSnapshot)
        ensures
            final(self).session().playback == playback,
            final(self).session().credential_expiry == old(self).session().credential_expiry,
            final(self).session().devices == old(self).session().devices,
    {
        self.session.playback = playback;
    }
}

} // verus!
