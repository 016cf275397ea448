//! The decision core of the timeout inspector.
//!
//! It owns the one-shot callback and the timer phase. The wrapped task
//! and the deadline timer themselves live with the surrounding
//! executor, which advances them and reports what they did; the core
//! takes the whole decision of one advancement: hand the task's value
//! on unchanged the moment it yields, and otherwise drive the phase
//! guard that makes the callback fire at most once.

use vstd::prelude::*;

use crate::phase::{fires_now, phase_after, TimerPhase};

verus! {

/// What one advancement reports back to the executor.
#[derive(Debug, PartialEq, Eq)]
pub enum Step<T> {
    /// The wrapped task yielded its value; it is handed on unchanged.
    Complete(T),
    /// The wrapped task has not yielded yet; advance again later.
    Pending,
}

/// The verified core of the combinator: the callback in its single
/// slot, and the phase that guards it.
pub struct InspectTimeout<F> {
    elapse_fn: Option<F>,
    phase: TimerPhase,
}

impl<F> InspectTimeout<F> where F: FnOnce() -> () {
    /// The timer phase, as the contracts speak of it.
    pub closed spec fn phase(&self) -> TimerPhase {
        self.phase
    }

    /// Whether the callback still sits in its slot, unconsumed.
    pub closed spec fn callback_pending(&self) -> bool {
        self.elapse_fn is Some
    }

    /// The callback in the slot.
    pub closed spec fn callback(&self) -> F
        recommends
            self.callback_pending(),
    {
        self.elapse_fn->Some_0
    }

    /// Validity: the slot is full exactly until the phase is `Fired` —
    /// the callback is consumed on the very step the phase gets there,
    /// and only then — and the stored callback may be invoked with no
    /// arguments.
    pub open spec fn wf(&self) -> bool {
        &&& (self.phase() is Fired <==> !self.callback_pending())
        &&& (self.callback_pending() ==> call_requires(self.callback(), ()))
    }

    /// Builds the core with the callback stored and the phase at
    /// `NotStarted`. The deadline timer itself is armed by the caller,
    /// to elapse once the configured duration has passed.
    pub fn new(elapse_fn: F) -> (s: Self)
        requires
            call_requires(elapse_fn, ()),
        ensures
            s.wf(),
            s.phase() is NotStarted,
            s.callback_pending(),
            s.callback() == elapse_fn,
    {
        InspectTimeout { elapse_fn: Some(elapse_fn), phase: TimerPhase::NotStarted }
    }

    /// Consumes the callback — the phase guard guarantees it is still
    /// there — invokes it, and moves the phase to `Fired`, terminal for
    /// all timer interaction. `call_ensures` of the stored callback is
    /// the witness that it was really called, not merely dropped.
    fn call_elapse_fn(&mut self)
        requires
            old(self).wf(),
            !(old(self).phase() is Fired),
        ensures
            final(self).wf(),
            final(self).phase() is Fired,
            !final(self).callback_pending(),
            call_ensures(old(self).callback(), (), ()),
    {
        let f = self.elapse_fn.take().unwrap();
        f();
        self.phase = TimerPhase::Fired;
    }

    /// Whether the deadline timer still needs to be checked when the
    /// task comes back pending: once the phase is `Fired`, the timer is
    /// never touched again.
    pub fn timer_wanted(&self) -> (b: bool)
        ensures
            b == !(self.phase() is Fired),
    {
        match self.phase {
            TimerPhase::Fired => false,
            _ => true,
        }
    }

    /// One advancement, driven by the external executor.
    ///
    /// The caller first advances the wrapped task and passes its yield,
    /// if any, as `task`; only when the task stayed pending and
    /// [`timer_wanted`](Self::timer_wanted) says so, it checks the
    /// deadline timer and passes what that reported as `timer_elapsed`.
    ///
    /// A yielded value wins outright: it comes back unchanged in
    /// `Step::Complete` and the core is left untouched — no timer
    /// check, no callback. Otherwise the phase follows the transition
    /// relation, the callback is invoked on exactly the step that moves
    /// the phase to `Fired`, and the step reports `Step::Pending`.
    pub fn advance<T>(&mut self, task: Option<T>, timer_elapsed: Option<bool>) -> (r: Step<T>)
        requires
            old(self).wf(),
            timer_elapsed is Some <==> (task is None && !(old(self).phase() is Fired)),
        ensures
            final(self).wf(),
            task is Some ==> r == Step::Complete(task->Some_0) && *final(self) == *old(self),
            task is None ==> r is Pending,
            task is None ==> final(self).phase() == phase_after(
                old(self).phase(),
                timer_elapsed == Some(true),
            ),
            task is None ==> final(self).callback_pending() == (old(self).callback_pending()
                && !fires_now(old(self).phase(), timer_elapsed == Some(true))),
            task is None && fires_now(old(self).phase(), timer_elapsed == Some(true))
                ==> call_ensures(old(self).callback(), (), ()),
            task is None && !fires_now(old(self).phase(), timer_elapsed == Some(true))
                ==> final(self).callback() == old(self).callback(),
    {
        if let Some(v) = task {
            return Step::Complete(v);
        }
        match self.phase {
            TimerPhase::NotStarted => {
                if timer_elapsed.unwrap() {
                    self.call_elapse_fn();
                } else {
                    self.phase = TimerPhase::Waiting;
                }
            },
            TimerPhase::Waiting => {
                if timer_elapsed.unwrap() {
                    self.call_elapse_fn();
                }
            },
            TimerPhase::Fired => {},
        }
        Step::Pending
    }

    /// The phase, for the surrounding code and the tests to look at.
    pub fn current_phase(&self) -> (p: TimerPhase)
        ensures
            p == self.phase(),
    {
        self.phase
    }

    /// Whether the callback was not consumed yet.
    pub fn has_callback(&self) -> (b: bool)
        ensures
            b == self.callback_pending(),
    {
        self.elapse_fn.is_some()
    }
}

} // verus!
