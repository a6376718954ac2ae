//! The one-shot bootstrap that must fully succeed before steady state.
//!
//! The surrounding process performs the two remote calls — refreshing the
//! credential and enumerating the playback devices — and hands their outcomes
//! to `initialize`, which decides: any failed call aborts the bootstrap, an
//! empty device list is fatal in its own right, and only a successful pair
//! with at least one device yields the session that steady state starts from.

use crate::state::Device;
use crate::state::PlaybackSnapshot;
use crate::machine::ProcessEvent;
use crate::machine::ProcessState;
use crate::state::SessionState;
use vstd::prelude::*;

verus! {

/// An error reported by the remote session service.  A transient failure may
/// succeed on retry; an authentication failure will not.
#[derive(Clone, Copy, Debug, PartialEq, Eq)]
pub enum ServiceError {
    Transient,
    Auth,
}

/// Why bootstrap failed.  Both variants are fatal: the process exits non-zero
/// before any background activity starts.
#[derive(Clone, Copy, Debug, PartialEq, Eq)]
pub enum BootstrapError {
    /// The authenticated exchange with the remote service failed: either the
    /// credential could not be obtained, or the device enumeration that
    /// depends on it failed.
    AuthFailure,
    /// The service answered, but no playback device exists.  Distinct from a
    /// transport failure: the session is healthy and still unusable.
    NoDeviceAvailable,
}

impl BootstrapError {
    /// The human-readable diagnostic written to the error channel when the
    /// process aborts.
    pub fn diagnostic(&self) -> (r: &'static str)
        ensures
            *self is NoDeviceAvailable ==> r@
                == "no active device available. Please connect to one and try again."@,
            *self is AuthFailure ==> r@
                == "failed to authenticate with the playback service."@,
    {
        match self {
            BootstrapError::AuthFailure => "failed to authenticate with the playback service.",
            BootstrapError::NoDeviceAvailable => "no active device available. Please connect to one and try again.",
        }
    }
}

/// What `initialize` decides, as a function of the two remote outcomes.
pub open spec fn initialize_decision(
    credential: Result<u64, ServiceError>,
    devices: Result<Seq<Device>, ServiceError>,
) -> Result<(u64, Seq<Device>), BootstrapError> {
    match credential {
        Result::Err(_) => Result::Err(BootstrapError::AuthFailure),
        Result::Ok(expiry) => match devices {
            Result::Err(_) => Result::Err(BootstrapError::AuthFailure),
            Result::Ok(ds) => if ds.len() == 0 {
                Result::Err(BootstrapError::NoDeviceAvailable)
            } else {
                Result::Ok((expiry, ds))
            },
        },
    }
}

/// Decides the bootstrap from the outcomes of the two remote calls: the
/// refreshed credential's expiry and the enumerated devices.  Returns the
/// session steady state starts from, or the fatal error.  Succeeds exactly
/// when both calls succeeded and at least one device exists; the session then
/// carries that expiry, that device list in its order, and the initial
/// playback snapshot.
pub fn initialize(
    credential: Result<u64, ServiceError>,
    devices: Result<Vec<Device>, ServiceError>,
) -> (r: Result<SessionState, BootstrapError>)
    ensures
        match r {
            Result::Ok(session) => {
                &&& initialize_decision(credential, result_view(&devices)) matches Result::Ok(
                    pair,
                ) && session.credential_expiry == pair.0 && session.devices@ == pair.1
                &&& session.playback.track@ == Seq::<char>::empty()
                &&& session.playback.position_ms == 0
                &&& !session.playback.playing
                &&& session.devices@.len() > 0
            },
            Result::Err(e) => initialize_decision(credential, result_view(&devices))
                == Result::<(u64, Seq<Device>), BootstrapError>::Err(e),
        },
{
    match credential {
        Result::Err(_) => Result::Err(BootstrapError::AuthFailure),
        Result::Ok(expiry) => match devices {
            Result::Err(_) => Result::Err(BootstrapError::AuthFailure),
            Result::Ok(ds) => {
                if ds.len() == 0 {
                    Result::Err(BootstrapError::NoDeviceAvailable)
                } else {
                    Result::Ok(
                        SessionState {
                            credential_expiry: expiry,
                            devices: ds,
                            playback: PlaybackSnapshot::initial(),
                        },
                    )
                }
            },
        },
    }
}

/// Whatever the credential call returned, a bootstrap whose device
/// enumeration came back empty is an error, and handing that failure to the
/// process machine terminates the process with a non-zero status while
/// neither background activity has ever been started: no side effect of the
/// watcher or the input source can exist.
pub proof fn lemma_empty_device_list_is_fatal(credential: Result<u64, ServiceError>)
    ensures
        initialize_decision(credential, Result::Ok(Seq::<Device>::empty())) is Err,
        ({
            let s = ProcessState::init_spec().step_spec(ProcessEvent::BootstrapFailed);
            &&& s.phase is Terminated
            &&& s.exit_status matches Some(code) && code != 0
            &&& !s.watcher_ever_started
            &&& !s.input_ever_started
        }),
{
}

/// The device outcome with the list abstracted to its sequence of devices.
pub open spec fn result_view(devices: &Result<Vec<Device>, ServiceError>) -> Result<
    Seq<Device>,
    ServiceError,
> {
    match devices {
        Result::Ok(ds) => Result::Ok(ds@),
        Result::Err(e) => Result::Err(*e),
    }
}

} // verus!
