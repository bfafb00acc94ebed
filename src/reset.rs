//! The authenticatorReset command.

use vstd::prelude::*;

verus! {

/// How long after power-up a reset is still allowed, in milliseconds.
pub const RESET_WINDOW_MS: u64 = 10_000;

/// The shortest user-presence timeout an authenticator may use, in milliseconds.
pub const MIN_USER_PRESENCE_TIMEOUT_MS: u64 = 10_000;

/// Possible errors of the reset command.
#[derive(Debug, Clone, Copy, PartialEq, Eq, Structural)]
pub enum Error {
    /// Reset is disabled for the transport, or user presence was denied.
    OperationDenied,
    /// No user action came before the timeout.
    UserActionTimeout,
    /// The request came more than ten seconds after power-up.
    NotAllowed,
}

/// What the authenticator does next with a pending reset request.
#[derive(Debug, Clone, Copy, PartialEq, Eq, Structural)]
pub enum ResetAction {
    /// Erase the credentials and answer with success.
    Reset,
    /// Keep waiting for the user.
    Wait,
    /// Answer with an error.
    Refuse(Error),
}

/// The step for a reset request that arrived `since_power_up_ms` after
/// power-up, after the user answered (`Some(true)` present, `Some(false)`
/// denied) or not yet (`None`) within `waited_ms`.
pub open spec fn reset_step(since_power_up_ms: u64, presence: Option<bool>, waited_ms: u64, timeout_ms: u64) -> ResetAction {
    if since_power_up_ms > RESET_WINDOW_MS {
        ResetAction::Refuse(Error::NotAllowed)
    } else {
        match presence {
            Some(true) => ResetAction::Reset,
            Some(false) => ResetAction::Refuse(Error::OperationDenied),
            None => if waited_ms >= effective_timeout(timeout_ms) {
                ResetAction::Refuse(Error::UserActionTimeout)
            } else {
                ResetAction::Wait
            },
        }
    }
}

/// The timeout in force: the configured one, but never under ten seconds.
pub open spec fn effective_timeout(timeout_ms: u64) -> u64 {
    if timeout_ms < MIN_USER_PRESENCE_TIMEOUT_MS {
        MIN_USER_PRESENCE_TIMEOUT_MS
    } else {
        timeout_ms
    }
}

/// Decides the next step of a reset request. A configured user-presence
/// timeout under ten seconds is raised to ten seconds.
pub fn decide_reset(since_power_up_ms: u64, presence: Option<bool>, waited_ms: u64, timeout_ms: u64) -> (r: ResetAction)
    ensures
        r == reset_step(since_power_up_ms, presence, waited_ms, timeout_ms),
{
    if since_power_up_ms > RESET_WINDOW_MS {
        return ResetAction::Refuse(Error::NotAllowed);
    }
    let timeout = if timeout_ms < MIN_USER_PRESENCE_TIMEOUT_MS {
        MIN_USER_PRESENCE_TIMEOUT_MS
    } else {
        timeout_ms
    };
    match presence {
        Some(true) => ResetAction::Reset,
        Some(false) => ResetAction::Refuse(Error::OperationDenied),
        None => if waited_ms >= timeout {
            ResetAction::Refuse(Error::UserActionTimeout)
        } else {
            ResetAction::Wait
        },
    }
}

/// A request never times out before ten seconds of waiting.
pub proof fn lemma_no_early_timeout(since: u64, waited_ms: u64, timeout_ms: u64)
    requires
        waited_ms < MIN_USER_PRESENCE_TIMEOUT_MS,
    ensures
        reset_step(since, None, waited_ms, timeout_ms) != ResetAction::Refuse(Error::UserActionTimeout),
{
}

} // verus!
