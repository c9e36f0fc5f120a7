//! Admission of inbound triggers: who may start a countdown, and when.

use vstd::prelude::*;
use crate::engine::CountdownEngine;
use crate::model::EngineModel;
use crate::secret::Secret;
use crate::session::{EngineState, DEFAULT_DELAY};

verus! {

/// Why a trigger was turned away.
#[derive(Clone, Copy, Debug, PartialEq, Eq, Structural)]
pub enum Rejection {
    /// The credential is not the secret.
    InvalidCredential,
    /// The credential is right, but the engine is not `Idle`.
    AlreadyRunning,
}

/// What became of a trigger. The caller answers the requester the same way
/// whatever this says.
#[derive(Clone, Copy, Debug, PartialEq, Eq, Structural)]
pub enum TriggerOutcome {
    /// A session was started.
    Accepted,
    /// Nothing was done.
    Rejected(Rejection),
}

/// The countdown length that a trigger asks for: its own, or the default.
pub open spec fn requested_duration(requested: Option<u32>) -> nat {
    match requested {
        Some(d) => d as nat,
        None => DEFAULT_DELAY as nat,
    }
}

/// The answer to a trigger that presents `credential`, where `secret` is
/// held and the engine stands in `state`. The credential is judged first.
pub open spec fn verdict(secret: Seq<char>, credential: Seq<char>, state: EngineState)
    -> TriggerOutcome {
    if credential != secret {
        TriggerOutcome::Rejected(Rejection::InvalidCredential)
    } else if state != EngineState::Idle {
        TriggerOutcome::Rejected(Rejection::AlreadyRunning)
    } else {
        TriggerOutcome::Accepted
    }
}

/// Holds the secret and admits the triggers that present it.
pub struct TriggerGate {
    secret: Secret,
}

impl View for TriggerGate {
    type V = Seq<char>;

    /// The secret that is held.
    closed spec fn view(&self) -> Seq<char> {
        self.secret@
    }
}

impl TriggerGate {
    /// Admits `secret` and nothing else.
    pub fn new(secret: Secret) -> (gate: TriggerGate)
        ensures
            gate@ == secret@,
    {
        TriggerGate { secret }
    }

    /// Judges one trigger. With the right credential and an `Idle` engine a
    /// session of the requested length, or of the default length where none
    /// is requested, is started. In every other case the engine is left
    /// exactly as it was.
    pub fn attempt(
        &self,
        engine: &mut CountdownEngine,
        credential: &str,
        requested: Option<u32>,
    ) -> (outcome: TriggerOutcome)
        ensures
            outcome == verdict(self@, credential@, old(engine)@.state),
            outcome == TriggerOutcome::Accepted ==> final(engine)@ == EngineModel::started(
                requested_duration(requested),
            ),
            outcome != TriggerOutcome::Accepted ==> final(engine)@ == old(engine)@,
            credential@ != self@ ==> outcome == TriggerOutcome::Rejected(
                Rejection::InvalidCredential,
            ) && final(engine)@ == old(engine)@,
            final(engine)@.wf(),
    {
        proof {
            use_type_invariant(&*engine);
        }
        if !self.secret.matches(credential) {
            return TriggerOutcome::Rejected(Rejection::InvalidCredential);
        }
        let duration: u32 = match requested {
            Some(d) => d,
            None => DEFAULT_DELAY,
        };
        if engine.start(duration) {
            TriggerOutcome::Accepted
        } else {
            TriggerOutcome::Rejected(Rejection::AlreadyRunning)
        }
    }
}

impl TriggerOutcome {
    /// Whether a session was started.
    pub fn is_accepted(&self) -> (accepted: bool)
        ensures
            accepted == (*self == TriggerOutcome::Accepted),
    {
        match self {
            TriggerOutcome::Accepted => true,
            TriggerOutcome::Rejected(_) => false,
        }
    }
}

} // verus!
