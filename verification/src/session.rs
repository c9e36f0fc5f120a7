//! The vocabulary shared by the engine, its model and its callers.

use vstd::prelude::*;

verus! {

/// Length of one tick in milliseconds. The countdown is kept in whole
/// seconds, and one tick takes one unit off it.
pub const TICK_MILLIS: u64 = 1000;

/// Countdown length, in units, used when a trigger names none.
pub const DEFAULT_DELAY: u32 = 60;

/// Where the engine stands in the life of a session.
#[derive(Clone, Copy, Debug, PartialEq, Eq, Structural)]
pub enum EngineState {
    /// No session; a start is accepted.
    Idle,
    /// A session is counting down.
    Running,
    /// The countdown reached zero and the action was ordered.
    Firing,
    /// The session was cancelled before it reached zero.
    Aborted,
}

/// What the engine tells its observer.
#[derive(Clone, Copy, Debug, PartialEq, Eq, Structural)]
pub enum Event {
    /// The countdown now stands at this many units.
    Progress(u32),
    /// The countdown ran out: the action is to be carried out now, once.
    Fired,
    /// The session was cancelled; nothing is to be carried out.
    Aborted,
}

/// How far the privileged action of the current session has got.
#[derive(Clone, Copy, Debug, PartialEq, Eq, Structural)]
pub enum FireStatus {
    /// The session has not asked for the action.
    NotOrdered,
    /// The action was ordered and its result is not in yet.
    Ordered,
    /// The executor reported success.
    Succeeded,
    /// The executor reported failure. Nothing is tried again.
    Failed,
}

/// The executor could not carry out the privileged action.
#[derive(Clone, Copy, Debug, PartialEq, Eq, Structural)]
pub struct ExecutionError {}

/// A snapshot of the session that the engine holds.
#[derive(Clone, Copy, Debug, PartialEq, Eq, Structural)]
pub struct CountdownSession {
    /// Units asked for at the start.
    pub total_duration: u32,
    /// Units still to go; never more than `total_duration`.
    pub remaining: u32,
    /// Never `Idle`: an idle engine holds no session.
    pub state: EngineState,
}

impl EngineState {
    /// A terminal state ends a session; only a reset leaves it.
    pub open spec fn is_terminal(self) -> bool {
        self == EngineState::Firing || self == EngineState::Aborted
    }
}

impl Event {
    /// A terminal event closes the stream of a session.
    pub open spec fn is_terminal(self) -> bool {
        self == Event::Fired || self == Event::Aborted
    }
}

impl FireStatus {
    /// The executor has answered, one way or the other.
    pub open spec fn is_settled(self) -> bool {
        self == FireStatus::Succeeded || self == FireStatus::Failed
    }
}

} // verus!
