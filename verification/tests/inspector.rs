use std::cell::Cell;
use std::rc::Rc;

use inspect_timeout::inspector::{InspectTimeout, Step};
use inspect_timeout::phase::TimerPhase;

#[test]
fn new_core_is_not_started_and_armed() {
    let fired = Rc::new(Cell::new(0u32));
    let counter = fired.clone();
    let ins = InspectTimeout::new(move || counter.set(counter.get() + 1));
    assert_eq!(ins.current_phase(), TimerPhase::NotStarted);
    assert!(ins.has_callback());
    assert!(ins.timer_wanted());
    assert_eq!(fired.get(), 0);
}

#[test]
fn pending_timer_moves_phase_to_waiting() {
    let fired = Rc::new(Cell::new(0u32));
    let counter = fired.clone();
    let mut ins = InspectTimeout::new(move || counter.set(counter.get() + 1));
    let r = ins.advance(None::<i32>, Some(false));
    assert_eq!(r, Step::Pending);
    assert_eq!(ins.current_phase(), TimerPhase::Waiting);
    assert!(ins.has_callback());
    assert_eq!(fired.get(), 0);
}

#[test]
fn callback_consumed_exactly_when_firing() {
    let fired = Rc::new(Cell::new(0u32));
    let counter = fired.clone();
    let mut ins = InspectTimeout::new(move || counter.set(counter.get() + 1));
    assert!(ins.has_callback());
    let r = ins.advance(None::<i32>, Some(true));
    assert_eq!(r, Step::Pending);
    assert_eq!(ins.current_phase(), TimerPhase::Fired);
    assert!(!ins.has_callback());
    assert!(!ins.timer_wanted());
    assert_eq!(fired.get(), 1);
}

#[test]
fn ready_task_wins_and_leaves_core_untouched() {
    let fired = Rc::new(Cell::new(0u32));
    let counter = fired.clone();
    let mut ins = InspectTimeout::new(move || counter.set(counter.get() + 1));
    let r = ins.advance(Some(41), None);
    assert_eq!(r, Step::Complete(41));
    assert_eq!(ins.current_phase(), TimerPhase::NotStarted);
    assert!(ins.has_callback());
    assert_eq!(fired.get(), 0);
}

#[test]
fn dropped_core_leaves_callback_unfired() {
    let fired = Rc::new(Cell::new(0u32));
    let counter = fired.clone();
    let mut ins = InspectTimeout::new(move || counter.set(counter.get() + 1));
    let _ = ins.advance(None::<i32>, Some(false));
    drop(ins);
    assert_eq!(fired.get(), 0);
}
