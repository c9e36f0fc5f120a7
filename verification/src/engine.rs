//! The countdown engine: the one owner of a session's state.
//!
//! The engine keeps no clock and runs no loop. Its caller delivers the
//! signals (a start, an abort, a tick, the executor's answer, a reset) and
//! carries out what the returned events ask for.

use vstd::prelude::*;
use crate::model::EngineModel;
use crate::session::{
    CountdownSession, EngineState, Event, ExecutionError, FireStatus, TICK_MILLIS,
};

verus! {

/// One countdown at a time, from its start to its terminal outcome.
pub struct CountdownEngine {
    state: EngineState,
    total_duration: u32,
    remaining: u32,
    abort_pending: bool,
    fire: FireStatus,
}

impl View for CountdownEngine {
    type V = EngineModel;

    closed spec fn view(&self) -> EngineModel {
        EngineModel {
            state: self.state,
            total: self.total_duration as nat,
            remaining: self.remaining as nat,
            abort_pending: self.abort_pending,
            fire: self.fire,
        }
    }
}

impl CountdownEngine {
    /// Holds of every engine, at every moment.
    #[verifier::type_invariant]
    pub open spec fn well_formed(self) -> bool {
        self@.wf()
    }

    /// An engine with no session.
    pub fn new() -> (engine: CountdownEngine)
        ensures
            engine@ == EngineModel::idle(),
    {
        CountdownEngine {
            state: EngineState::Idle,
            total_duration: 0,
            remaining: 0,
            abort_pending: false,
            fire: FireStatus::NotOrdered,
        }
    }

    /// Starts a session of `duration` units if the engine is `Idle`, and
    /// says whether it did. Anywhere else nothing changes: one session at a
    /// time.
    pub fn start(&mut self, duration: u32) -> (started: bool)
        ensures
            started == (old(self)@.state == EngineState::Idle),
            final(self)@ == old(self)@.start(duration as nat),
            !started ==> final(self)@ == old(self)@,
            final(self)@.wf(),
    {
        proof {
            use_type_invariant(&*self);
        }
        if self.state == EngineState::Idle {
            *self = CountdownEngine {
                state: EngineState::Running,
                total_duration: duration,
                remaining: duration,
                abort_pending: false,
                fire: FireStatus::NotOrdered,
            };
            true
        } else {
            false
        }
    }

    /// Notes an abort for the next tick if a session is `Running`. Anywhere
    /// else nothing changes, and nothing is kept for a later session.
    pub fn abort(&mut self)
        ensures
            final(self)@ == old(self)@.abort(),
            old(self)@.state != EngineState::Running ==> final(self)@ == old(self)@,
            final(self)@.wf(),
    {
        proof {
            use_type_invariant(&*self);
        }
        if self.state == EngineState::Running {
            self.abort_pending = true;
        }
    }

    /// One tick: a pending abort ends the session; otherwise one unit comes
    /// off the countdown, and at zero the session fires. Returns the events of
    /// this tick in the order in which the observer is to see them.
    pub fn tick(&mut self) -> (events: Vec<Event>)
        ensures
            final(self)@ == old(self)@.tick(),
            events@ == old(self)@.tick_events(),
            final(self)@.wf(),
    {
        proof {
            use_type_invariant(&*self);
        }
        let mut events: Vec<Event> = Vec::new();
        if self.state != EngineState::Running {
            return events;
        }
        if self.abort_pending {
            *self = CountdownEngine {
                state: EngineState::Aborted,
                total_duration: self.total_duration,
                remaining: self.remaining,
                abort_pending: false,
                fire: self.fire,
            };
            events.push(Event::Aborted);
        } else if self.remaining <= 1 {
            if self.remaining == 1 {
                events.push(Event::Progress(0));
            }
            *self = CountdownEngine {
                state: EngineState::Firing,
                total_duration: self.total_duration,
                remaining: 0,
                abort_pending: false,
                fire: FireStatus::Ordered,
            };
            events.push(Event::Fired);
        } else {
            let left: u32 = self.remaining - 1;
            self.remaining = left;
            events.push(Event::Progress(left));
        }
        events
    }

    /// Takes the executor's answer to the order that `Event::Fired` gave.
    /// The first answer after the order is kept and `true` is returned; any
    /// other call changes nothing. A failure leaves the session where it is:
    /// the action is not ordered again and the session is not reopened.
    pub fn fire_completed(&mut self, result: Result<(), ExecutionError>) -> (taken: bool)
        ensures
            taken == (old(self)@.fire == FireStatus::Ordered),
            final(self)@ == old(self)@.fire_completed(result is Ok),
            final(self)@.state == old(self)@.state,
            final(self)@.wf(),
    {
        proof {
            use_type_invariant(&*self);
        }
        match self.fire {
            FireStatus::Ordered => {
                self.fire = match result {
                    Ok(_) => FireStatus::Succeeded,
                    Err(_) => FireStatus::Failed,
                };
                true
            },
            _ => false,
        }
    }

    /// Gives a finished session up and returns to `Idle`, and says whether
    /// it did. The caller asks for this once the terminal event has reached
    /// its observer. A session that is `Firing` is given up only after the
    /// executor has answered, so the action never runs twice at a time.
    pub fn reset(&mut self) -> (reopened: bool)
        ensures
            reopened == old(self)@.can_reset(),
            final(self)@ == old(self)@.reset(),
            reopened ==> final(self)@ == EngineModel::idle(),
            !reopened ==> final(self)@ == old(self)@,
            final(self)@.wf(),
    {
        proof {
            use_type_invariant(&*self);
        }
        let over: bool = match self.state {
            EngineState::Aborted => true,
            EngineState::Firing => match self.fire {
                FireStatus::Succeeded => true,
                FireStatus::Failed => true,
                _ => false,
            },
            _ => false,
        };
        if over {
            *self = CountdownEngine::new();
        }
        over
    }

    /// Where the engine stands.
    pub fn state(&self) -> (state: EngineState)
        ensures
            state == self@.state,
            self@.wf(),
    {
        proof {
            use_type_invariant(self);
        }
        self.state
    }

    /// Units still to go in the current session; zero when there is none.
    pub fn remaining(&self) -> (remaining: u32)
        ensures
            remaining == self@.remaining,
    {
        self.remaining
    }

    /// Units that the current session was started with; zero when there is
    /// none.
    pub fn total_duration(&self) -> (total: u32)
        ensures
            total == self@.total,
    {
        self.total_duration
    }

    /// Whether an abort waits for the next tick.
    pub fn abort_pending(&self) -> (pending: bool)
        ensures
            pending == self@.abort_pending,
    {
        self.abort_pending
    }

    /// How far the privileged action of the current session has got.
    pub fn fire_status(&self) -> (fire: FireStatus)
        ensures
            fire == self@.fire,
    {
        self.fire
    }

    /// Time still to go in the current session, in milliseconds.
    pub fn remaining_millis(&self) -> (millis: u64)
        ensures
            millis == self@.remaining * TICK_MILLIS,
    {
        let units: u64 = self.remaining as u64;
        units * TICK_MILLIS
    }

    /// The session that the engine holds, if any.
    pub fn session(&self) -> (session: Option<CountdownSession>)
        ensures
            session is None <==> self@.state == EngineState::Idle,
            session matches Some(s) ==> s.state == self@.state && s.total_duration == self@.total
                && s.remaining == self@.remaining && s.remaining <= s.total_duration,
    {
        proof {
            use_type_invariant(self);
        }
        match self.state {
            EngineState::Idle => None,
            _ => Some(
                CountdownSession {
                    total_duration: self.total_duration,
                    remaining: self.remaining,
                    state: self.state,
                },
            ),
        }
    }
}

} // verus!
