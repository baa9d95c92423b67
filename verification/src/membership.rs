//! The join-with-retry state machine.
//!
//! On an invitation the bot attempts to join the room; after a failed attempt
//! it waits for the current delay, doubles it, and tries again. Once the
//! doubled delay would exceed the cap, one final attempt is made and not
//! retried further. The caller performs the join attempts and the waiting;
//! every decision is taken here.

use vstd::prelude::*;

verus! {

/// The delay before the second join attempt, in seconds.
pub const INITIAL_JOIN_DELAY_SECS: u64 = 2;

/// A join is no longer retried once its next delay would exceed this cap, in
/// seconds.
pub const JOIN_DELAY_CAP_SECS: u64 = 3600;

/// Where one pending invitation stands.
#[derive(Debug, Clone, Copy, PartialEq, Eq, Structural)]
pub enum JoinState {
    /// A join attempt is due; after a failure the caller waits `delay`
    /// seconds before the next attempt.
    Trying { delay: u64 },
    /// The doubled delay exceeded the cap: one last attempt is due, after
    /// which the invitation is given up regardless.
    FinalTry { delay: u64 },
    /// The room was joined; terminal.
    Joined,
    /// The invitation was given up; terminal.
    GaveUp,
}

/// The delays a reachable state can hold: they grow by doubling from the
/// initial delay and stop at the first value past the cap.
pub open spec fn join_state_wf(s: JoinState) -> bool {
    match s {
        JoinState::Trying { delay } => 1 <= delay <= JOIN_DELAY_CAP_SECS,
        JoinState::FinalTry { delay } => delay <= 2 * JOIN_DELAY_CAP_SECS,
        _ => true,
    }
}

/// The state transition: success settles the invitation; a failure doubles
/// the delay, moving to the final attempt when the doubled delay passes the
/// cap; the terminal states stay put.
pub open spec fn spec_join_step(s: JoinState, joined: bool) -> JoinState {
    match s {
        JoinState::Trying { delay } => if joined {
            JoinState::Joined
        } else if 2 * delay > JOIN_DELAY_CAP_SECS {
            JoinState::FinalTry { delay: (2 * delay) as u64 }
        } else {
            JoinState::Trying { delay: (2 * delay) as u64 }
        },
        JoinState::FinalTry { delay } => if joined {
            JoinState::Joined
        } else {
            JoinState::GaveUp
        },
        JoinState::Joined => JoinState::Joined,
        JoinState::GaveUp => JoinState::GaveUp,
    }
}

/// The state a fresh invitation starts in.
pub fn initial_join_state() -> (s: JoinState)
    ensures
        s == (JoinState::Trying { delay: INITIAL_JOIN_DELAY_SECS }),
        join_state_wf(s),
{
    JoinState::Trying { delay: INITIAL_JOIN_DELAY_SECS }
}

/// Advances the state machine by the outcome of one join attempt.
pub fn join_step(state: &JoinState, joined: bool) -> (next: JoinState)
    requires
        join_state_wf(*state),
    ensures
        next == spec_join_step(*state, joined),
        join_state_wf(next),
{
    match state {
        JoinState::Trying { delay } => {
            if joined {
                JoinState::Joined
            } else {
                let next_delay = *delay * 2;
                if next_delay > JOIN_DELAY_CAP_SECS {
                    JoinState::FinalTry { delay: next_delay }
                } else {
                    JoinState::Trying { delay: next_delay }
                }
            }
        },
        JoinState::FinalTry { delay: _ } => {
            if joined {
                JoinState::Joined
            } else {
                JoinState::GaveUp
            }
        },
        JoinState::Joined => JoinState::Joined,
        JoinState::GaveUp => JoinState::GaveUp,
    }
}

/// How long the caller waits after a failed attempt in `state` before the
/// next attempt: the state's delay while retries continue, nothing once the
/// final attempt or a terminal state is reached.
pub fn wait_after_failure(state: &JoinState) -> (r: Option<u64>)
    ensures
        r == (match *state {
            JoinState::Trying { delay } => Some(delay),
            _ => None::<u64>,
        }),
{
    match state {
        JoinState::Trying { delay } => Some(*delay),
        _ => None,
    }
}

} // verus!
