//! What holds of every session, proved over the model that the engine's
//! contracts are written in.

use vstd::prelude::*;
use crate::model::EngineModel;
use crate::session::{EngineState, Event, FireStatus};

verus! {

/// The first `k` progress events of a session of `d` units:
/// `d - 1`, `d - 2`, and so on, one unit apart.
pub open spec fn countdown(d: nat, k: nat) -> Seq<Event> {
    Seq::new(k, |i: int| Event::Progress((d - 1 - i) as u32))
}

/// The number of ticks that take a fresh session of `d` units to its end
/// when nothing interrupts it. A session of zero units fires on its first
/// tick.
pub open spec fn ticks_to_fire(d: nat) -> nat {
    if d == 0 {
        1
    } else {
        d
    }
}

/// A session of `d` units that has fired and waits for the executor.
pub open spec fn fired(d: nat) -> EngineModel {
    EngineModel {
        state: EngineState::Firing,
        total: d,
        remaining: 0,
        abort_pending: false,
        fire: FireStatus::Ordered,
    }
}

/// Every transition keeps the engine well formed.
pub proof fn law_transitions_keep_well_formed(m: EngineModel, duration: nat, succeeded: bool)
    requires
        m.wf(),
        duration <= u32::MAX,
    ensures
        EngineModel::idle().wf(),
        m.start(duration).wf(),
        m.abort().wf(),
        m.tick().wf(),
        m.fire_completed(succeeded).wf(),
        m.reset().wf(),
{
}

/// Ticks change nothing and emit nothing unless a session is running:
/// once a session has ended, no further event follows its terminal event.
pub proof fn law_ticks_outside_running_are_silent(m: EngineModel, n: nat)
    requires
        m.state != EngineState::Running,
    ensures
        m.run(n) == m,
        m.run_events(n) == Seq::<Event>::empty(),
    decreases n,
{
    if n > 0 {
        law_ticks_outside_running_are_silent(m, (n - 1) as nat);
    }
}

/// Ticking `a` times and then `b` times is ticking `a + b` times.
pub proof fn law_runs_compose(m: EngineModel, a: nat, b: nat)
    ensures
        m.run(a + b) == m.run(a).run(b),
        m.run_events(a + b) == m.run_events(a) + m.run(a).run_events(b),
    decreases b,
{
    if b == 0 {
        assert(m.run_events(a) + Seq::<Event>::empty() =~= m.run_events(a));
    } else {
        let b1 = (b - 1) as nat;
        law_runs_compose(m, a, b1);
        assert((a + b - 1) as nat == a + b1);
        assert(m.run_events(a + b) =~= m.run_events(a) + m.run(a).run_events(b));
    }
}

/// While an uninterrupted session has not reached its last tick it stays
/// `Running`, each tick takes one unit off, and the events so far are the
/// progress values from `d - 1` downwards with no gap and no repeat.
pub proof fn law_countdown_progress(d: nat, k: nat)
    requires
        d <= u32::MAX,
        k < ticks_to_fire(d),
    ensures
        EngineModel::started(d).run(k) == (EngineModel {
            remaining: (d - k) as nat,
            ..EngineModel::started(d)
        }),
        EngineModel::started(d).run_events(k) == countdown(d, k),
    decreases k,
{
    let s = EngineModel::started(d);
    if k == 0 {
        assert(s.run_events(0) =~= countdown(d, 0));
    } else {
        let k1 = (k - 1) as nat;
        law_countdown_progress(d, k1);
        assert(s.run(k1).remaining == d - k1);
        assert(s.run(k1).tick_events() =~= seq![Event::Progress((d - k) as u32)]);
        assert(s.run_events(k) =~= countdown(d, k));
    }
}

/// An uninterrupted session of `d` units reaches `Firing` on tick number
/// `ticks_to_fire(d)` and stays there. Its whole stream is the progress
/// values `d - 1` down to `0` followed by one `Fired`, which is its last
/// event however long the ticking goes on; the action is on order, once.
pub proof fn law_uninterrupted_session_fires(d: nat, n: nat)
    requires
        d <= u32::MAX,
        n >= ticks_to_fire(d),
    ensures
        EngineModel::started(d).run(n) == fired(d),
        EngineModel::started(d).run_events(n) == countdown(d, d).push(Event::Fired),
{
    let s = EngineModel::started(d);
    let t = ticks_to_fire(d);
    let t1 = (t - 1) as nat;
    law_countdown_progress(d, t1);
    assert(s.run(t) == fired(d));
    if d == 0 {
        assert(s.run_events(t) =~= countdown(d, d).push(Event::Fired));
    } else {
        assert(s.run(t1).tick_events() =~= seq![Event::Progress(0), Event::Fired]);
        assert(s.run_events(t) =~= countdown(d, d).push(Event::Fired));
    }
    law_runs_compose(s, t, (n - t) as nat);
    law_ticks_outside_running_are_silent(fired(d), (n - t) as nat);
    assert(s.run_events(t) + Seq::<Event>::empty() =~= s.run_events(t));
}

/// The progress values of a session fall strictly, from `d - 1` to `0`.
pub proof fn law_progress_falls_strictly(d: nat, i: int, j: int)
    requires
        d <= u32::MAX,
        0 <= i < j < d,
    ensures
        countdown(d, d)[i] == Event::Progress((d - 1 - i) as u32),
        countdown(d, d)[j] == Event::Progress((d - 1 - j) as u32),
        d - 1 - i > d - 1 - j >= 0,
{
}

/// An abort raised after `k` ticks, before the countdown has run out, ends
/// the session on the next tick: the state is `Aborted`, the stream is the
/// progress made so far followed by one `Aborted`, no `Fired` is in it, and
/// the action was never ordered, however long the ticking goes on.
pub proof fn law_abort_ends_without_firing(d: nat, k: nat, n: nat)
    requires
        d <= u32::MAX,
        k < ticks_to_fire(d),
        n >= 1,
    ensures
        EngineModel::started(d).run(k).abort().run(n) == (EngineModel {
            state: EngineState::Aborted,
            remaining: (d - k) as nat,
            ..EngineModel::started(d)
        }),
        EngineModel::started(d).run(k).abort().run(n).fire == FireStatus::NotOrdered,
        EngineModel::started(d).run(k).abort().run_events(n) == seq![Event::Aborted],
        EngineModel::started(d).run_events(k) + EngineModel::started(d).run(k).abort().run_events(
            n,
        ) == countdown(d, k).push(Event::Aborted),
        !countdown(d, k).push(Event::Aborted).contains(Event::Fired),
{
    let s = EngineModel::started(d);
    law_countdown_progress(d, k);
    let a = s.run(k).abort();
    let end = a.run(1);
    assert(a.run(0) == a);
    assert(a.run_events(0) =~= Seq::<Event>::empty());
    assert(a.run_events(1) =~= seq![Event::Aborted]);
    law_runs_compose(a, 1, (n - 1) as nat);
    law_ticks_outside_running_are_silent(end, (n - 1) as nat);
    assert(a.run_events(n) =~= seq![Event::Aborted]);
    assert(s.run_events(k) + a.run_events(n) =~= countdown(d, k).push(Event::Aborted));
}

/// A start that finds the engine anywhere but `Idle` leaves the session as
/// it is, so everything that follows is what it would have been without it.
pub proof fn law_start_is_single_flight(m: EngineModel, duration: nat, n: nat)
    requires
        m.state != EngineState::Idle,
    ensures
        m.start(duration) == m,
        m.start(duration).run(n) == m.run(n),
        m.start(duration).run_events(n) == m.run_events(n),
{
}

/// An abort that finds no session running changes nothing and leaves
/// nothing behind: the next session starts clean and runs as if the abort
/// had never been raised.
pub proof fn law_abort_outside_running_is_forgotten(m: EngineModel, duration: nat, n: nat)
    requires
        m.wf(),
        m.state != EngineState::Running,
    ensures
        m.abort() == m,
        m.abort().reset().start(duration) == m.reset().start(duration),
        m.abort().reset().start(duration).run(n) == m.reset().start(duration).run(n),
        m.abort().reset().state == EngineState::Idle ==> m.abort().reset().start(duration)
            == EngineModel::started(duration),
{
}

/// A signal that can reach the engine while it holds a session. A reset is
/// left out: it ends the session and with it the stream.
pub enum Signal {
    /// The clock moved on by one unit.
    Tick,
    /// The user asked to cancel.
    Abort,
    /// A further trigger was admitted.
    Start(nat),
    /// The executor answered, with success or not.
    FireCompleted(bool),
}

/// The state after `signal` has reached the engine in state `m`.
pub open spec fn after(m: EngineModel, signal: Signal) -> EngineModel {
    match signal {
        Signal::Tick => m.tick(),
        Signal::Abort => m.abort(),
        Signal::Start(duration) => m.start(duration),
        Signal::FireCompleted(succeeded) => m.fire_completed(succeeded),
    }
}

/// The events that the engine in state `m` emits on `signal`.
pub open spec fn emitted(m: EngineModel, signal: Signal) -> Seq<Event> {
    match signal {
        Signal::Tick => m.tick_events(),
        _ => Seq::<Event>::empty(),
    }
}

/// The state after the signals of `schedule` have arrived in order.
pub open spec fn play(m: EngineModel, schedule: Seq<Signal>) -> EngineModel
    decreases schedule.len(),
{
    if schedule.len() == 0 {
        m
    } else {
        after(play(m, schedule.drop_last()), schedule.last())
    }
}

/// The events emitted while the signals of `schedule` arrive in order.
pub open spec fn play_events(m: EngineModel, schedule: Seq<Signal>) -> Seq<Event>
    decreases schedule.len(),
{
    if schedule.len() == 0 {
        Seq::<Event>::empty()
    } else {
        play_events(m, schedule.drop_last()) + emitted(
            play(m, schedule.drop_last()),
            schedule.last(),
        )
    }
}

/// The stream that a session has put out by the time it stands at `m`:
/// one progress value for each unit gone, then the terminal event of the
/// state it ended in, if it has ended.
pub open spec fn stream_of(m: EngineModel) -> Seq<Event> {
    let gone = (m.total - m.remaining) as nat;
    match m.state {
        EngineState::Idle => Seq::<Event>::empty(),
        EngineState::Running => countdown(m.total, gone),
        EngineState::Aborted => countdown(m.total, gone).push(Event::Aborted),
        EngineState::Firing => countdown(m.total, gone).push(Event::Fired),
    }
}

/// One signal leaves the engine with its session, never raises what is
/// left of the countdown, and extends the stream of the session by exactly
/// what it emits.
pub proof fn law_signal_extends_stream(m: EngineModel, signal: Signal)
    requires
        m.wf(),
        m.state != EngineState::Idle,
    ensures
        after(m, signal).wf(),
        after(m, signal).state != EngineState::Idle,
        after(m, signal).total == m.total,
        after(m, signal).remaining <= m.remaining,
        m.state.is_terminal() ==> after(m, signal).state == m.state,
        stream_of(after(m, signal)) == stream_of(m) + emitted(m, signal),
{
    let next = after(m, signal);
    assert(stream_of(next) =~= stream_of(m) + emitted(m, signal));
}

/// Whatever signals reach a session of `d` units, and in whatever order, the
/// engine stays with that session, and the events it has emitted are the
/// stream of the state it has reached: the progress values from `d - 1`
/// downwards, one unit apart, and after them the one terminal event of that
/// state, if the session has ended.
pub proof fn law_stream_follows_state(d: nat, schedule: Seq<Signal>)
    requires
        d <= u32::MAX,
    ensures
        play(EngineModel::started(d), schedule).wf(),
        play(EngineModel::started(d), schedule).state != EngineState::Idle,
        play(EngineModel::started(d), schedule).total == d,
        play_events(EngineModel::started(d), schedule) == stream_of(
            play(EngineModel::started(d), schedule),
        ),
    decreases schedule.len(),
{
    let s = EngineModel::started(d);
    if schedule.len() == 0 {
        assert(stream_of(s) =~= Seq::<Event>::empty());
    } else {
        law_stream_follows_state(d, schedule.drop_last());
        law_signal_extends_stream(play(s, schedule.drop_last()), schedule.last());
    }
}

/// A stream holds at most one terminal event, as its last: `Fired` exactly
/// when the session ended in `Firing`, `Aborted` exactly when it ended in
/// `Aborted`, and never both. Everything before it is progress.
pub proof fn law_one_terminal_event(m: EngineModel)
    requires
        m.wf(),
    ensures
        stream_of(m).contains(Event::Fired) <==> m.state == EngineState::Firing,
        stream_of(m).contains(Event::Aborted) <==> m.state == EngineState::Aborted,
        !(stream_of(m).contains(Event::Fired) && stream_of(m).contains(Event::Aborted)),
        m.state.is_terminal() ==> stream_of(m).len() > 0 && stream_of(m).last().is_terminal(),
        forall|i: int|
            0 <= i < stream_of(m).len() && #[trigger] stream_of(m)[i].is_terminal() ==> i
                == stream_of(m).len() - 1,
{
    let gone = (m.total - m.remaining) as nat;
    let progress = countdown(m.total, gone);
    assert(forall|i: int| 0 <= i < progress.len() ==> !(#[trigger] progress[i]).is_terminal());
    match m.state {
        EngineState::Idle => {},
        EngineState::Running => {},
        EngineState::Aborted => {
            assert(stream_of(m).last() == Event::Aborted);
            assert(stream_of(m)[gone as int] == Event::Aborted);
        },
        EngineState::Firing => {
            assert(stream_of(m).last() == Event::Fired);
            assert(stream_of(m)[gone as int] == Event::Fired);
        },
    }
}

} // verus!
