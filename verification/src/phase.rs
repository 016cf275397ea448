//! The timer phase and its transition relation.
//!
//! A deadline timer, once elapsed, reports "elapsed" on every later
//! check. The phase is the guard that turns this idempotent signal into
//! an at-most-once callback: the first check that finds the timer
//! elapsed moves the phase to `Fired`, and in `Fired` the timer is
//! never checked again.

use vstd::prelude::*;

verus! {

/// Where the inspector stands with its deadline timer.
#[derive(Clone, Copy, Debug, PartialEq, Eq, Structural)]
pub enum TimerPhase {
    /// The timer has never been checked.
    NotStarted,
    /// The timer was checked at least once and had not elapsed yet.
    Waiting,
    /// The timer was found elapsed and the callback was consumed;
    /// terminal for all timer interaction.
    Fired,
}

/// The phase after one advancement on which the task stayed pending:
/// `elapsed` is what the check of the timer reported on that step. In
/// `Fired` the timer is not checked at all and the phase stays put, so
/// `elapsed` is irrelevant there.
pub open spec fn phase_after(p: TimerPhase, elapsed: bool) -> TimerPhase {
    match p {
        TimerPhase::Fired => TimerPhase::Fired,
        _ => if elapsed {
            TimerPhase::Fired
        } else {
            TimerPhase::Waiting
        },
    }
}

/// Whether such an advancement consumes the callback: only a check that
/// finds the timer elapsed while the phase is not yet `Fired` does.
pub open spec fn fires_now(p: TimerPhase, elapsed: bool) -> bool {
    !(p is Fired) && elapsed
}

/// The phase after a whole run of advancements on which the task stayed
/// pending, `samples` being what the timer reported on each.
pub open spec fn phase_after_run(p: TimerPhase, samples: Seq<bool>) -> TimerPhase
    decreases samples.len(),
{
    if samples.len() == 0 {
        p
    } else {
        phase_after_run(phase_after(p, samples[0]), samples.skip(1))
    }
}

/// How many advancements of such a run consume the callback.
pub open spec fn fire_count(p: TimerPhase, samples: Seq<bool>) -> nat
    decreases samples.len(),
{
    if samples.len() == 0 {
        0
    } else {
        (if fires_now(p, samples[0]) {
            1nat
        } else {
            0nat
        }) + fire_count(phase_after(p, samples[0]), samples.skip(1))
    }
}

/// `Fired` is terminal: from it, no run of advancements fires the
/// callback again or leaves the phase, however the timer samples come
/// out. Repeated advancement against an elapsed — hence forever
/// "elapsed" — timer is therefore harmless.
pub proof fn lemma_fired_is_terminal(samples: Seq<bool>)
    ensures
        fire_count(TimerPhase::Fired, samples) == 0,
        phase_after_run(TimerPhase::Fired, samples) is Fired,
    decreases samples.len(),
{
    if samples.len() > 0 {
        lemma_fired_is_terminal(samples.skip(1));
    }
}

/// At-most-once firing: from any phase, a run of advancements consumes
/// the callback at most once, whatever the timer reported on each step.
pub proof fn lemma_at_most_once(p: TimerPhase, samples: Seq<bool>)
    ensures
        fire_count(p, samples) <= 1,
    decreases samples.len(),
{
    if samples.len() > 0 {
        if fires_now(p, samples[0]) {
            lemma_fired_is_terminal(samples.skip(1));
        } else {
            lemma_at_most_once(phase_after(p, samples[0]), samples.skip(1));
        }
    }
}

/// A timer that never reports elapsed never fires the callback: a task
/// that completes strictly before the deadline leaves the callback
/// untouched.
pub proof fn lemma_quiet_timer_never_fires(p: TimerPhase, samples: Seq<bool>)
    requires
        forall|i: int| 0 <= i < samples.len() ==> !samples[i],
    ensures
        fire_count(p, samples) == 0,
    decreases samples.len(),
{
    if samples.len() > 0 {
        assert(forall|i: int|
            0 <= i < samples.skip(1).len() ==> samples.skip(1)[i] == samples[i + 1]);
        lemma_quiet_timer_never_fires(phase_after(p, samples[0]), samples.skip(1));
    }
}

/// If the callback has not fired yet and some advancement of the run
/// finds the timer elapsed while the task is still pending, the
/// callback fires exactly once over the run.
pub proof fn lemma_elapsed_fires_exactly_once(p: TimerPhase, samples: Seq<bool>)
    requires
        !(p is Fired),
        exists|i: int| 0 <= i < samples.len() && samples[i],
    ensures
        fire_count(p, samples) == 1,
    decreases samples.len(),
{
    if samples[0] {
        lemma_fired_is_terminal(samples.skip(1));
    } else {
        let i = choose|i: int| 0 <= i < samples.len() && samples[i];
        assert(0 <= i - 1 < samples.skip(1).len() && samples.skip(1)[i - 1]);
        lemma_elapsed_fires_exactly_once(TimerPhase::Waiting, samples.skip(1));
    }
}

/// A run ends in `Fired` exactly when it began there or fired along the
/// way: the consumed callback and the terminal phase go together.
pub proof fn lemma_fired_iff_fired(p: TimerPhase, samples: Seq<bool>)
    ensures
        phase_after_run(p, samples) is Fired <==> (p is Fired || fire_count(p, samples) > 0),
    decreases samples.len(),
{
    if samples.len() > 0 {
        lemma_fired_iff_fired(phase_after(p, samples[0]), samples.skip(1));
    }
}

} // verus!
