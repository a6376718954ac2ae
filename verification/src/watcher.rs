//! The session watcher's decision logic.
//!
//! The watcher is the background loop that refreshes the credential ahead of
//! expiry and executes queued commands against the remote service.  The
//! remote calls themselves happen in the surrounding process; everything the
//! loop decides — whether to exit, refresh or execute, how long to back off
//! after a transient failure, when to give up, when to re-authenticate and
//! when to escalate to a fatal shutdown — is a function here, verified for
//! every outcome the service can produce.

use crate::bootstrap::ServiceError;
use crate::events::Command;
use crate::events::CommandQueue;
use crate::state::PlaybackSnapshot;
use crate::state::SessionState;
use vstd::prelude::*;

verus! {

/// The bounded-backoff retry policy: how many consecutive transient failures
/// are retried, the first delay, and the cap the delays never exceed.
#[derive(Clone, Copy, Debug, PartialEq, Eq)]
pub struct RetryPolicy {
    pub max_attempts: u32,
    pub base_delay_ms: u64,
    pub max_delay_ms: u64,
}

/// Whether the credential is due for refresh: the time remaining until
/// `expiry` is within the safety `margin` (or the credential already
/// expired).
pub open spec fn needs_refresh_spec(expiry: u64, now: u64, margin: u64) -> bool {
    expiry <= now + margin
}

/// Decides whether the watcher must refresh the credential now.
pub fn needs_refresh(expiry: u64, now: u64, margin: u64) -> (r: bool)
    ensures
        r == needs_refresh_spec(expiry, now, margin),
{
    if margin > u64::MAX - now {
        true
    } else {
        expiry <= now + margin
    }
}

/// Two to the power `n`.
pub open spec fn pow2(n: nat) -> nat
    decreases n,
{
    if n == 0 {
        1
    } else {
        2 * pow2((n - 1) as nat)
    }
}

/// The delay before retry number `attempt`: the base delay doubled once per
/// previous attempt, capped.
pub open spec fn backoff_spec(base: u64, cap: u64, attempt: nat) -> int {
    if base * pow2(attempt) <= cap {
        base * pow2(attempt)
    } else {
        cap as int
    }
}

proof fn lemma_backoff_double(base: u64, n: nat)
    ensures
        base * pow2(n + 1) == 2 * (base * pow2(n)),
        base * pow2(n) >= 0,
{
    assert(pow2(n + 1) == 2 * pow2(n));
    assert(base * (2 * pow2(n)) == 2 * (base * pow2(n))) by (nonlinear_arith);
    assert(base * pow2(n) >= 0) by (nonlinear_arith);
}

/// Computes the bounded exponential backoff delay before retry number
/// `attempt`.
pub fn backoff_delay(policy: &RetryPolicy, attempt: u32) -> (r: u64)
    ensures
        r == backoff_spec(policy.base_delay_ms, policy.max_delay_ms, attempt as nat),
{
    let base = policy.base_delay_ms;
    let cap = policy.max_delay_ms;
    let mut delay: u64 = if base > cap {
        cap
    } else {
        base
    };
    let mut i: u32 = 0;
    proof {
        assert(pow2(0) == 1);
        assert(base * pow2(0) == base);
    }
    while i < attempt
        invariant
            i <= attempt,
            delay == backoff_spec(base, cap, i as nat),
        decreases attempt - i,
    {
        proof {
            lemma_backoff_double(base, i as nat);
        }
        if delay > cap / 2 {
            delay = cap;
        } else {
            delay = delay * 2;
        }
        i = i + 1;
    }
    delay
}

/// What the watcher does next, decided from a service outcome.
#[derive(Clone, Debug, PartialEq, Eq)]
pub enum WatcherAction {
    /// A command succeeded: write this playback snapshot into the shared
    /// state.
    ApplySnapshot(PlaybackSnapshot),
    /// A refresh or re-authentication succeeded: write this credential
    /// expiry into the shared state.
    UpdateExpiry(u64),
    /// A transient failure with retries remaining: wait this many
    /// milliseconds, then try again.
    RetryAfter(u64),
    /// Transient retries are exhausted: emit a non-fatal status event to the
    /// interactive loop and carry on with the loop.
    ReportFailure,
    /// An authentication failure distinct from a transient one: re-run the
    /// scoped re-authentication.
    Reauthenticate,
    /// Re-authentication itself failed: emit a fatal shutdown event and
    /// stop.
    EmitFatalShutdown,
}

/// The watcher's reaction to a failed service call: retry with bounded
/// backoff while transient attempts remain, report once they are exhausted,
/// re-authenticate on an authentication failure.
pub open spec fn failure_decision(policy: RetryPolicy, attempts: u32, e: ServiceError) -> WatcherAction {
    match e {
        ServiceError::Transient => if attempts < policy.max_attempts {
            WatcherAction::RetryAfter(
                backoff_spec(policy.base_delay_ms, policy.max_delay_ms, attempts as nat) as u64,
            )
        } else {
            WatcherAction::ReportFailure
        },
        ServiceError::Auth => WatcherAction::Reauthenticate,
    }
}

/// Decides the reaction to the outcome of executing a command, where
/// `attempts` counts the transient failures this command has already seen.
pub fn on_command_outcome(
    policy: &RetryPolicy,
    attempts: u32,
    outcome: Result<PlaybackSnapshot, ServiceError>,
) -> (r: WatcherAction)
    ensures
        match outcome {
            Result::Ok(snapshot) => r == WatcherAction::ApplySnapshot(snapshot),
            Result::Err(e) => r == failure_decision(*policy, attempts, e),
        },
{
    match outcome {
        Result::Ok(snapshot) => WatcherAction::ApplySnapshot(snapshot),
        Result::Err(e) => on_service_failure(policy, attempts, e),
    }
}

/// Decides the reaction to the outcome of a credential refresh.
pub fn on_refresh_outcome(
    policy: &RetryPolicy,
    attempts: u32,
    outcome: Result<u64, ServiceError>,
) -> (r: WatcherAction)
    ensures
        match outcome {
            Result::Ok(expiry) => r == WatcherAction::UpdateExpiry(expiry),
            Result::Err(e) => r == failure_decision(*policy, attempts, e),
        },
{
    match outcome {
        Result::Ok(expiry) => WatcherAction::UpdateExpiry(expiry),
        Result::Err(e) => on_service_failure(policy, attempts, e),
    }
}

/// Decides the reaction to the outcome of the scoped re-authentication: a
/// success writes the new expiry; a failure of this last resort is fatal and
/// emits the shutdown.
pub fn on_reauth_outcome(outcome: Result<u64, ServiceError>) -> (r: WatcherAction)
    ensures
        match outcome {
            Result::Ok(expiry) => r == WatcherAction::UpdateExpiry(expiry),
            Result::Err(_) => r == WatcherAction::EmitFatalShutdown,
        },
{
    match outcome {
        Result::Ok(expiry) => WatcherAction::UpdateExpiry(expiry),
        Result::Err(_) => WatcherAction::EmitFatalShutdown,
    }
}

fn on_service_failure(policy: &RetryPolicy, attempts: u32, e: ServiceError) -> (r: WatcherAction)
    ensures
        r == failure_decision(*policy, attempts, e),
{
    match e {
        ServiceError::Transient => {
            if attempts < policy.max_attempts {
                WatcherAction::RetryAfter(backoff_delay(policy, attempts))
            } else {
                WatcherAction::ReportFailure
            }
        },
        ServiceError::Auth => WatcherAction::Reauthenticate,
    }
}

/// What one iteration of the watcher loop does.
#[derive(Clone, Debug, PartialEq, Eq)]
pub enum WatcherStep {
    /// Shutdown was signaled: stop, without touching the command inlet.
    Exit,
    /// The credential is within the safety margin: refresh it.
    RefreshCredential,
    /// Execute the oldest pending command against the remote service.
    ExecuteCommand(Command),
    /// Nothing to do until the next poll.
    Idle,
}

/// Decides one iteration of the watcher loop.  The shutdown flag is checked
/// first, so a signaled watcher exits within this very iteration; otherwise a
/// due credential refresh takes priority over pending commands, and the
/// commands leave the inlet oldest first.
pub fn watcher_step(
    shutdown: bool,
    expiry: u64,
    now: u64,
    margin: u64,
    commands: &mut CommandQueue,
) -> (r: WatcherStep)
    ensures
        shutdown ==> r == WatcherStep::Exit && final(commands).contents() == old(commands).contents(),
        !shutdown && needs_refresh_spec(expiry, now, margin) ==> r
            == WatcherStep::RefreshCredential && final(commands).contents() == old(commands).contents(),
        !shutdown && !needs_refresh_spec(expiry, now, margin) && old(commands).contents().len() > 0
            ==> r == WatcherStep::ExecuteCommand(old(commands).contents()[0]) && final(commands).contents() == old(commands).contents().drop_first(),
        !shutdown && !needs_refresh_spec(expiry, now, margin) && old(commands).contents().len() == 0
            ==> r == WatcherStep::Idle && final(commands).contents() == old(commands).contents(),
{
    if shutdown {
        WatcherStep::Exit
    } else if needs_refresh(expiry, now, margin) {
        WatcherStep::RefreshCredential
    } else {
        match commands.pop() {
            Option::Some(c) => WatcherStep::ExecuteCommand(c),
            Option::None => WatcherStep::Idle,
        }
    }
}

/// At any instant sampled between one watcher iteration and the next — at
/// most one safety margin after the iteration ran — the session in the
/// shared state still satisfies the steady-state invariant: its credential
/// expiry lies strictly in the future.  The iteration either found more than
/// the margin remaining and left the expiry alone, or refreshed the
/// credential to an expiry beyond the margin; either way every sample up to
/// one margin later sees an unexpired credential, provided the refreshed
/// credential's lifetime exceeds the margin, as the remote service grants.
pub proof fn lemma_credential_live_between_iterations(
    session: SessionState,
    iteration_time: u64,
    margin: u64,
    refreshed: Option<u64>,
    now: u64,
)
    requires
        session.devices@.len() > 0,
        iteration_time <= now <= iteration_time + margin,
        match refreshed {
            Option::None => !needs_refresh_spec(session.credential_expiry, iteration_time, margin),
            Option::Some(new_expiry) => new_expiry > iteration_time + margin,
        },
    ensures
        (match refreshed {
            Option::None => session,
            Option::Some(new_expiry) => SessionState { credential_expiry: new_expiry, ..session },
        }).steady_ok(now),
{
}

} // verus!
