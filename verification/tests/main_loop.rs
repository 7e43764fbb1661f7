use std::cell::Cell;
use std::rc::Rc;

use emscripten_functions::main_loop::{MainLoopHost, StatefulLoop};

/// A loop state that records how many times it has been dropped.
struct Tracker {
    drops: Rc<Cell<u32>>,
}

impl Drop for Tracker {
    fn drop(&mut self) {
        self.drops.set(self.drops.get() + 1);
    }
}

fn keep(t: Tracker) -> Tracker {
    t
}

fn make_op(runs: Rc<Cell<u32>>) -> impl Fn(Tracker) -> Tracker {
    move |t| {
        runs.set(runs.get() + 1);
        t
    }
}

#[test]
fn register_then_cancel_drops_state_exactly_once() {
    let drops = Rc::new(Cell::new(0u32));
    let mut host = MainLoopHost::new();
    host.set_main_loop_with_arg(keep, Tracker { drops: drops.clone() }, 10, false);
    assert!(host.slot.is_some());
    assert_eq!(drops.get(), 0);
    host.cancel_main_loop();
    assert!(host.slot.is_none());
    assert_eq!(drops.get(), 1);
    host.cancel_main_loop();
    assert_eq!(drops.get(), 1);
}

#[test]
fn second_registration_drops_first_state_before_any_firing() {
    let drops_a = Rc::new(Cell::new(0u32));
    let drops_b = Rc::new(Cell::new(0u32));
    let runs_a = Rc::new(Cell::new(0u32));
    let runs_b = Rc::new(Cell::new(0u32));
    let mut host = MainLoopHost::new();
    host.set_main_loop_with_arg(
        make_op(runs_a.clone()),
        Tracker { drops: drops_a.clone() },
        10,
        false,
    );
    host.set_main_loop_with_arg(
        make_op(runs_b.clone()),
        Tracker { drops: drops_b.clone() },
        10,
        false,
    );
    // A's state is gone before any firing, and A's operation never ran.
    assert_eq!(drops_a.get(), 1);
    assert_eq!(runs_a.get(), 0);
    assert_eq!(drops_b.get(), 0);
    host.tick();
    host.tick();
    assert_eq!(runs_a.get(), 0);
    assert_eq!(runs_b.get(), 2);
    assert_eq!(drops_a.get(), 1);
    assert_eq!(drops_b.get(), 0);
}

#[test]
fn cancel_on_empty_slot_is_noop() {
    let mut host: MainLoopHost<StatefulLoop<fn(u64) -> u64, u64>> = MainLoopHost::new();
    let mode_before = host.mode;
    let value_before = host.value;
    let paused_before = host.paused;
    host.cancel_main_loop();
    assert!(host.slot.is_none());
    assert_eq!(host.mode, mode_before);
    assert_eq!(host.value, value_before);
    assert_eq!(host.paused, paused_before);
}

#[test]
fn paused_loop_does_not_fire_and_resume_keeps_state() {
    fn increment(n: u64) -> u64 {
        n + 1
    }
    let mut host = MainLoopHost::new();
    host.set_main_loop_with_arg(increment as fn(u64) -> u64, 0u64, 10, false);
    host.tick();
    assert_eq!(host.slot.as_ref().unwrap().state, 1);
    host.pause_main_loop();
    host.tick();
    host.tick();
    // No invocation while paused, and the captured state is untouched.
    assert_eq!(host.slot.as_ref().unwrap().state, 1);
    host.resume_main_loop();
    host.tick();
    // The first firing after the resume steps the state mutated before the pause.
    assert_eq!(host.slot.as_ref().unwrap().state, 2);
}

#[test]
fn pause_and_resume_are_idempotent() {
    fn increment(n: u64) -> u64 {
        n + 1
    }
    let mut host = MainLoopHost::new();
    host.set_main_loop_with_arg(increment as fn(u64) -> u64, 7u64, 10, false);
    host.pause_main_loop();
    host.pause_main_loop();
    assert!(host.paused);
    assert_eq!(host.slot.as_ref().unwrap().state, 7);
    host.resume_main_loop();
    host.resume_main_loop();
    assert!(!host.paused);
    assert_eq!(host.slot.as_ref().unwrap().state, 7);
}

#[test]
fn counter_loop_counts_firings_and_cancel_freezes_it() {
    let seen = Rc::new(Cell::new(0u64));
    let mirror = seen.clone();
    let mut host = MainLoopHost::new();
    host.set_main_loop_with_arg(
        move |n: u64| {
            mirror.set(n + 1);
            n + 1
        },
        0u64,
        10,
        false,
    );
    // A frequency of 10 calls per second maps to a 100 ms timer interval.
    assert_eq!(host.mode, 0);
    assert_eq!(host.value, 100);
    assert!(!host.simulate_infinite_loop);
    for _ in 0..5 {
        host.tick();
    }
    assert_eq!(host.slot.as_ref().unwrap().state, 5);
    assert_eq!(seen.get(), 5);
    host.cancel_main_loop();
    for _ in 0..3 {
        host.tick();
    }
    assert!(host.slot.is_none());
    assert_eq!(seen.get(), 5);
}

#[test]
fn stateless_loop_registers_and_fires() {
    let runs = Rc::new(Cell::new(0u32));
    let mirror = runs.clone();
    let mut host = MainLoopHost::new();
    host.set_main_loop(
        move |_: ()| {
            mirror.set(mirror.get() + 1);
        },
        0,
        true,
    );
    // A non-positive frequency asks for the vsync signal.
    assert_eq!(host.mode, 1);
    assert_eq!(host.value, 1);
    assert!(host.simulate_infinite_loop);
    host.tick();
    host.tick();
    assert_eq!(runs.get(), 2);
}
