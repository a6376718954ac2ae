//! The process-level state machine.
//!
//! `Bootstrapping → SteadyState → ShuttingDown → Terminated`, with the two
//! background activities tracked alongside the phase: steady state is entered
//! only on bootstrap success and starts both activities; a bootstrap error
//! terminates the process non-zero before either has ever started; shutdown
//! is cooperative, and the process terminates only once both activities have
//! confirmed their stop, so nothing is left running.

use vstd::prelude::*;

verus! {

/// The phase of the process.
#[derive(Clone, Copy, Debug, PartialEq, Eq)]
pub enum Phase {
    Bootstrapping,
    SteadyState,
    ShuttingDown,
    Terminated,
}

/// The process state: the phase, whether each background activity is
/// running, whether each has ever been started, and the exit status once
/// terminated.
#[derive(Clone, Copy, Debug, PartialEq, Eq)]
pub struct ProcessState {
    pub phase: Phase,
    pub watcher_running: bool,
    pub input_running: bool,
    pub watcher_ever_started: bool,
    pub input_ever_started: bool,
    pub exit_status: Option<u8>,
}

/// A process-level transition trigger.
#[derive(Clone, Copy, Debug, PartialEq, Eq)]
pub enum ProcessEvent {
    /// Bootstrap returned a session: enter steady state, start both
    /// background activities.
    BootstrapSucceeded,
    /// Bootstrap failed: terminate non-zero, no activity ever starts.
    BootstrapFailed,
    /// The shutdown event was consumed, or the watcher escalated an
    /// unrecoverable failure: begin the cooperative shutdown.
    ShutdownRequested,
    /// The session watcher confirmed that it stopped.
    WatcherStopped,
    /// The input source confirmed that it stopped.
    InputStopped,
}

impl ProcessState {
    /// The state a process is born in: bootstrapping, nothing running,
    /// nothing ever started, not yet exited.
    pub open spec fn init_spec() -> ProcessState {
        ProcessState {
            phase: Phase::Bootstrapping,
            watcher_running: false,
            input_running: false,
            watcher_ever_started: false,
            input_ever_started: false,
            exit_status: Option::None,
        }
    }

    /// Creates the initial process state.
    pub fn init() -> (r: ProcessState)
        ensures
            r == ProcessState::init_spec(),
    {
        ProcessState {
            phase: Phase::Bootstrapping,
            watcher_running: false,
            input_running: false,
            watcher_ever_started: false,
            input_ever_started: false,
            exit_status: Option::None,
        }
    }

    /// The invariant every reachable process state satisfies: while
    /// bootstrapping nothing has ever started; a running activity implies
    /// steady state or shutdown in progress; in steady state both activities
    /// run; a terminated process has no running activity and an exit status,
    /// and only a terminated process has one.
    pub open spec fn inv(self) -> bool {
        &&& self.phase is Bootstrapping ==> !self.watcher_ever_started && !self.input_ever_started
        &&& self.watcher_running ==> self.watcher_ever_started
        &&& self.input_running ==> self.input_ever_started
        &&& (self.watcher_running || self.input_running) ==> self.phase is SteadyState
            || self.phase is ShuttingDown
        &&& self.phase is SteadyState ==> self.watcher_running && self.input_running
        &&& self.phase is Terminated ==> !self.watcher_running && !self.input_running
        &&& self.phase is Terminated <==> self.exit_status is Some
    }

    /// The transition relation, as a function.  Triggers that make no sense
    /// in the current phase leave the state unchanged.
    pub open spec fn step_spec(self, ev: ProcessEvent) -> ProcessState {
        match ev {
            ProcessEvent::BootstrapSucceeded => if self.phase is Bootstrapping {
                ProcessState {
                    phase: Phase::SteadyState,
                    watcher_running: true,
                    input_running: true,
                    watcher_ever_started: true,
                    input_ever_started: true,
                    exit_status: Option::None,
                }
            } else {
                self
            },
            ProcessEvent::BootstrapFailed => if self.phase is Bootstrapping {
                ProcessState {
                    phase: Phase::Terminated,
                    watcher_running: false,
                    input_running: false,
                    watcher_ever_started: self.watcher_ever_started,
                    input_ever_started: self.input_ever_started,
                    exit_status: Option::Some(1u8),
                }
            } else {
                self
            },
            ProcessEvent::ShutdownRequested => if self.phase is SteadyState {
                ProcessState { phase: Phase::ShuttingDown, ..self }
            } else {
                self
            },
            ProcessEvent::WatcherStopped => if self.phase is ShuttingDown {
                if !self.input_running {
                    ProcessState {
                        phase: Phase::Terminated,
                        watcher_running: false,
                        exit_status: Option::Some(0u8),
                        ..self
                    }
                } else {
                    ProcessState { watcher_running: false, ..self }
                }
            } else {
                self
            },
            ProcessEvent::InputStopped => if self.phase is ShuttingDown {
                if !self.watcher_running {
                    ProcessState {
                        phase: Phase::Terminated,
                        input_running: false,
                        exit_status: Option::Some(0u8),
                        ..self
                    }
                } else {
                    ProcessState { input_running: false, ..self }
                }
            } else {
                self
            },
        }
    }

    /// Performs one transition.
    pub fn step(&self, ev: ProcessEvent) -> (r: ProcessState)
        ensures
            r == self.step_spec(ev),
    {
        match ev {
            ProcessEvent::BootstrapSucceeded => {
                if matches!(self.phase, Phase::Bootstrapping) {
                    ProcessState {
                        phase: Phase::SteadyState,
                        watcher_running: true,
                        input_running: true,
                        watcher_ever_started: true,
                        input_ever_started: true,
                        exit_status: Option::None,
                    }
                } else {
                    *self
                }
            },
            ProcessEvent::BootstrapFailed => {
                if matches!(self.phase, Phase::Bootstrapping) {
                    ProcessState {
                        phase: Phase::Terminated,
                        watcher_running: false,
                        input_running: false,
                        watcher_ever_started: self.watcher_ever_started,
                        input_ever_started: self.input_ever_started,
                        exit_status: Option::Some(1u8),
                    }
                } else {
                    *self
                }
            },
            ProcessEvent::ShutdownRequested => {
                if matches!(self.phase, Phase::SteadyState) {
                    ProcessState { phase: Phase::ShuttingDown, ..*self }
                } else {
                    *self
                }
            },
            ProcessEvent::WatcherStopped => {
                if matches!(self.phase, Phase::ShuttingDown) {
                    if !self.input_running {
                        ProcessState {
                            phase: Phase::Terminated,
                            watcher_running: false,
                            exit_status: Option::Some(0u8),
                            ..*self
                        }
                    } else {
                        ProcessState { watcher_running: false, ..*self }
                    }
                } else {
                    *self
                }
            },
            ProcessEvent::InputStopped => {
                if matches!(self.phase, Phase::ShuttingDown) {
                    if !self.watcher_running {
                        ProcessState {
                            phase: Phase::Terminated,
                            input_running: false,
                            exit_status: Option::Some(0u8),
                            ..*self
                        }
                    } else {
                        ProcessState { input_running: false, ..*self }
                    }
                } else {
                    *self
                }
            },
        }
    }
}

/// Every transition preserves the process invariant: from any reachable
/// state, the machine can never leak a running activity into termination,
/// start an activity before steady state, or leave steady state with one
/// stopped.
pub proof fn lemma_step_preserves_inv(s: ProcessState, ev: ProcessEvent)
    requires
        s.inv(),
    ensures
        s.step_spec(ev).inv(),
{
}

/// A bootstrap failure terminates the process with a non-zero status, and
/// neither background activity has ever been started: there is no side
/// effect attributable to the watcher or the input source.
pub proof fn lemma_bootstrap_failure_is_fatal()
    ensures
        ({
            let s = ProcessState::init_spec().step_spec(ProcessEvent::BootstrapFailed);
            &&& s.phase is Terminated
            &&& s.exit_status matches Some(code) && code != 0
            &&& !s.watcher_ever_started
            &&& !s.input_ever_started
            &&& s.inv()
        }),
{
}

/// Once shutdown is requested in steady state, the two stop confirmations —
/// in either order — drive the machine to `Terminated` with a clean exit
/// status and no activity left running.
pub proof fn lemma_shutdown_reaches_terminated(s: ProcessState)
    requires
        s.inv(),
        s.phase is SteadyState,
    ensures
        ({
            let d = s.step_spec(ProcessEvent::ShutdownRequested);
            let a = d.step_spec(ProcessEvent::WatcherStopped).step_spec(ProcessEvent::InputStopped);
            let b = d.step_spec(ProcessEvent::InputStopped).step_spec(ProcessEvent::WatcherStopped);
            &&& a.phase is Terminated && !a.watcher_running && !a.input_running && a.exit_status
                == Some(0u8)
            &&& b.phase is Terminated && !b.watcher_running && !b.input_running && b.exit_status
                == Some(0u8)
        }),
{
}

} // verus!
