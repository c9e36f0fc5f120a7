//! The countdown as a mathematical state machine.
//!
//! Every executable operation of the engine is specified as one of the
//! transitions below, so what is proved of the model holds of the engine.

use vstd::prelude::*;
use crate::session::{EngineState, Event, FireStatus};

verus! {

/// The state of the engine, with unbounded counters.
pub struct EngineModel {
    pub state: EngineState,
    /// Units asked for by the start of the current session.
    pub total: nat,
    /// Units still to go.
    pub remaining: nat,
    /// An abort was asked for and the next tick has not seen it yet.
    pub abort_pending: bool,
    pub fire: FireStatus,
}

impl EngineModel {
    /// The engine with no session.
    pub open spec fn idle() -> EngineModel {
        EngineModel {
            state: EngineState::Idle,
            total: 0,
            remaining: 0,
            abort_pending: false,
            fire: FireStatus::NotOrdered,
        }
    }

    /// A session of `duration` units that has just been started.
    pub open spec fn started(duration: nat) -> EngineModel {
        EngineModel {
            state: EngineState::Running,
            total: duration,
            remaining: duration,
            abort_pending: false,
            fire: FireStatus::NotOrdered,
        }
    }

    /// What holds of every state the engine can be in.
    pub open spec fn wf(self) -> bool {
        &&& self.remaining <= self.total
        &&& self.total <= u32::MAX
        &&& self.state == EngineState::Idle ==> self.total == 0
        &&& self.state == EngineState::Running && self.remaining == 0 ==> self.total == 0
        &&& self.state == EngineState::Firing ==> self.remaining == 0
        &&& self.abort_pending ==> self.state == EngineState::Running
        &&& self.fire != FireStatus::NotOrdered <==> self.state == EngineState::Firing
    }

    /// A start is taken from `Idle` only; anywhere else it changes nothing.
    pub open spec fn start(self, duration: nat) -> EngineModel {
        if self.state == EngineState::Idle {
            EngineModel::started(duration)
        } else {
            self
        }
    }

    /// An abort is noted while `Running` and waits for the next tick;
    /// anywhere else it changes nothing.
    pub open spec fn abort(self) -> EngineModel {
        if self.state == EngineState::Running {
            EngineModel { abort_pending: true, ..self }
        } else {
            self
        }
    }

    /// The state after one tick.
    pub open spec fn tick(self) -> EngineModel {
        if self.state != EngineState::Running {
            self
        } else if self.abort_pending {
            EngineModel { state: EngineState::Aborted, abort_pending: false, ..self }
        } else if self.remaining <= 1 {
            EngineModel {
                state: EngineState::Firing,
                remaining: 0,
                fire: FireStatus::Ordered,
                ..self
            }
        } else {
            EngineModel { remaining: (self.remaining - 1) as nat, ..self }
        }
    }

    /// The events that one tick emits, in order.
    pub open spec fn tick_events(self) -> Seq<Event> {
        if self.state != EngineState::Running {
            seq![]
        } else if self.abort_pending {
            seq![Event::Aborted]
        } else if self.remaining == 0 {
            seq![Event::Fired]
        } else if self.remaining == 1 {
            seq![Event::Progress(0), Event::Fired]
        } else {
            seq![Event::Progress((self.remaining - 1) as u32)]
        }
    }

    /// The executor's answer is taken once, while the action is on order.
    pub open spec fn fire_completed(self, succeeded: bool) -> EngineModel {
        if self.fire == FireStatus::Ordered {
            EngineModel {
                fire: if succeeded {
                    FireStatus::Succeeded
                } else {
                    FireStatus::Failed
                },
                ..self
            }
        } else {
            self
        }
    }

    /// The session is over and nothing of it is still under way.
    pub open spec fn can_reset(self) -> bool {
        self.state == EngineState::Aborted || (self.state == EngineState::Firing
            && self.fire.is_settled())
    }

    /// A finished session gives way to `Idle`; anywhere else a reset
    /// changes nothing.
    pub open spec fn reset(self) -> EngineModel {
        if self.can_reset() {
            EngineModel::idle()
        } else {
            self
        }
    }

    /// The state after `n` ticks with no other signal in between.
    pub open spec fn run(self, n: nat) -> EngineModel
        decreases n,
    {
        if n == 0 {
            self
        } else {
            self.run((n - 1) as nat).tick()
        }
    }

    /// The events of `n` ticks with no other signal in between, in order.
    pub open spec fn run_events(self, n: nat) -> Seq<Event>
        decreases n,
    {
        if n == 0 {
            seq![]
        } else {
            self.run_events((n - 1) as nat) + self.run((n - 1) as nat).tick_events()
        }
    }
}

} // verus!
