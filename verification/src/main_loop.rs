//! The main-loop bridge: a per-context slot holding at most one stateful
//! callable, driven by a host scheduler whose native callback interface
//! accepts no arguments and no context pointer.
//!
//! [`MainLoopHost`] models the scheduler state one execution context sees:
//! the slot, the running/paused flag, and the raw timing words. Registering
//! pairs a caller-supplied operation with owned state ([`StatefulLoop`]) and
//! places it in the slot, replacing and dropping any previous occupant; a
//! tick fires the argument-less trampoline, which invokes whatever callable
//! is present and ignores an empty slot.

use vstd::prelude::*;

use crate::timing::{
    MainLoopInvalidTiming, MainLoopTiming, TIMING_MODE_RAF, TIMING_MODE_SETIMMEDIATE,
    TIMING_MODE_SETTIMEOUT, lemma_timing_round_trip, lemma_unmodeled_mode_round_trip,
    timing_of_raw, timing_to_raw,
};

verus! {

/// A unit of repeatable work the main-loop slot can hold: one invocation of
/// the loop body, carrying its own state from call to call.
pub trait LoopCallable: Sized {
    /// When the next invocation is allowed to run.
    spec fn step_req(self) -> bool;

    /// How one invocation relates the callable before the call to after.
    spec fn step_ens(self, next: Self) -> bool;

    /// Performs one invocation.
    fn step(self) -> (next: Self)
        requires
            self.step_req(),
        ensures
            self.step_ens(next),
    ;
}

/// Pairs a caller-supplied operation with the owned state it works on,
/// forming the zero-argument callable the slot stores. The state must be
/// fully owned so that it outlives the stack frame that registered it.
pub struct StatefulLoop<F, T> {
    /// The operation run on every invocation.
    pub op: F,
    /// The state handed to the operation, carried between invocations.
    pub state: T,
}

impl<T, F: Fn(T) -> T> LoopCallable for StatefulLoop<F, T> {
    open spec fn step_req(self) -> bool {
        call_requires(self.op, (self.state,))
    }

    open spec fn step_ens(self, next: Self) -> bool {
        next.op == self.op && call_ensures(self.op, (self.state,), next.state)
    }

    fn step(self) -> (next: Self) {
        let StatefulLoop { op, state } = self;
        let state = op(state);
        StatefulLoop { op, state }
    }
}

/// Spells out, for any operation-with-state pair, what its slot
/// predicates say in terms of the operation's own contract: the pair is
/// ready when the operation accepts the current state, and one step keeps
/// the operation while relating old and new state as the operation does.
pub proof fn lemma_stateful_loop_specs<T, F: Fn(T) -> T>(sl: StatefulLoop<F, T>)
    ensures
        sl.step_req() == call_requires(sl.op, (sl.state,)),
        forall|next: StatefulLoop<F, T>|
            #[trigger] sl.step_ens(next) == (next.op == sl.op && call_ensures(
                sl.op,
                (sl.state,),
                next.state,
            )),
{
}

/// The scheduler state of one execution context: the loop slot, the
/// suspended flag, the raw timing words, and the flag of the last
/// registration asking the caller's stack to be unwound.
pub struct MainLoopHost<C> {
    /// The slot: at most one callable per execution context.
    pub slot: Option<C>,
    /// Whether the scheduler currently suspends invocation.
    pub paused: bool,
    /// The raw timing mode word as the host stores it.
    pub mode: i32,
    /// The raw timing value word as the host stores it.
    pub value: i32,
    /// Whether the last registration asked for the calling context to be
    /// unwound once the scheduler takes over.
    pub simulate_infinite_loop: bool,
}

impl<C> MainLoopHost<C> {
    /// Whether a loop is registered in this context.
    pub open spec fn registered(self) -> bool {
        self.slot is Some
    }

    /// The state after a registration: the callable occupies the slot,
    /// invocation runs, and the timing words are set from the requested
    /// frequency — a fixed `setTimeout` interval for a positive rate, the
    /// display's vsync signal otherwise.
    pub open spec fn after_register(self, c: C, fps: i32, simulate_infinite_loop: bool) -> Self {
        MainLoopHost {
            slot: Some(c),
            paused: false,
            mode: if fps > 0 {
                TIMING_MODE_SETTIMEOUT
            } else {
                TIMING_MODE_RAF
            },
            value: if fps > 0 {
                (1000int / fps as int) as i32
            } else {
                1
            },
            simulate_infinite_loop,
        }
    }

    /// The state after a cancellation: the slot is empty, all else as it was.
    pub open spec fn after_cancel(self) -> Self {
        MainLoopHost { slot: None, ..self }
    }

    /// The state after a pause instruction.
    pub open spec fn after_pause(self) -> Self {
        MainLoopHost { paused: true, ..self }
    }

    /// The state after a resume instruction.
    pub open spec fn after_resume(self) -> Self {
        MainLoopHost { paused: false, ..self }
    }

    /// The state after writing the raw timing words.
    pub open spec fn after_raw_timing(self, mode: i32, value: i32) -> Self {
        MainLoopHost { mode, value, ..self }
    }

    /// The state after applying a timing descriptor.
    pub open spec fn after_set_timing(self, t: MainLoopTiming) -> Self {
        self.after_raw_timing(timing_to_raw(t).0, timing_to_raw(t).1)
    }

    /// The descriptor the raw timing words currently denote.
    pub open spec fn current_timing(self) -> Result<MainLoopTiming, MainLoopInvalidTiming> {
        timing_of_raw(self.mode, self.value)
    }

    /// A context with no loop registered and the timing words as the host
    /// runtime initializes them.
    pub fn new() -> (r: Self)
        ensures
            r == (MainLoopHost::<C> {
                slot: None,
                paused: false,
                mode: TIMING_MODE_SETTIMEOUT,
                value: 0,
                simulate_infinite_loop: false,
            }),
    {
        MainLoopHost {
            slot: None,
            paused: false,
            mode: TIMING_MODE_SETTIMEOUT,
            value: 0,
            simulate_infinite_loop: false,
        }
    }

    /// Stores the callable in the slot — replacing, and thereby dropping,
    /// any previous occupant together with its state — then instructs the
    /// scheduler to begin invoking the trampoline at the requested
    /// frequency.
    pub fn register_callable(&mut self, callable: C, fps: i32, simulate_infinite_loop: bool)
        ensures
            *final(self) == old(self).after_register(callable, fps, simulate_infinite_loop),
    {
        self.slot = Some(callable);
        self.paused = false;
        if fps > 0 {
            self.mode = TIMING_MODE_SETTIMEOUT;
            self.value = 1000 / fps;
        } else {
            self.mode = TIMING_MODE_RAF;
            self.value = 1;
        }
        self.simulate_infinite_loop = simulate_infinite_loop;
    }

    /// Instructs the scheduler to stop invoking the trampoline, then clears
    /// the slot, dropping the stored callable and its state immediately.
    /// On an empty slot this is a no-op beyond the unconditional stop.
    pub fn cancel_main_loop(&mut self)
        ensures
            *final(self) == old(self).after_cancel(),
            old(self).slot is None ==> *final(self) == *old(self),
    {
        self.slot = None;
    }

    /// Instructs the scheduler to suspend invocation without touching the
    /// slot. Idempotent.
    pub fn pause_main_loop(&mut self)
        ensures
            *final(self) == old(self).after_pause(),
    {
        self.paused = true;
    }

    /// Instructs the scheduler to continue invocation without touching the
    /// slot. Idempotent.
    pub fn resume_main_loop(&mut self)
        ensures
            *final(self) == old(self).after_resume(),
    {
        self.paused = false;
    }

    /// Reads the raw timing words as the host stores them.
    pub fn raw_timing(&self) -> (r: (i32, i32))
        ensures
            r == (self.mode, self.value),
    {
        (self.mode, self.value)
    }

    /// Writes the raw timing words, as the host's raw setter does, and
    /// reports whether a loop is registered — the only success signal the
    /// host offers.
    pub fn set_raw_timing(&mut self, mode: i32, value: i32) -> (r: bool)
        ensures
            *final(self) == old(self).after_raw_timing(mode, value),
            r == old(self).registered(),
    {
        self.mode = mode;
        self.value = value;
        self.slot.is_some()
    }

    /// Applies the given timing descriptor to the main loop.
    ///
    /// Returns `true` exactly when a main loop is registered; applying a
    /// timing to an inactive loop is meaningless but not an error.
    pub fn set_main_loop_timing(&mut self, timing: &MainLoopTiming) -> (r: bool)
        ensures
            *final(self) == old(self).after_set_timing(*timing),
            r == old(self).registered(),
    {
        let (mode, value) = timing.to_raw();
        self.set_raw_timing(mode, value)
    }

    /// Reads the timing descriptor of the main loop, or the raw pair found
    /// when its mode is not modeled.
    pub fn get_main_loop_timing(&self) -> (r: Result<MainLoopTiming, MainLoopInvalidTiming>)
        ensures
            r == self.current_timing(),
    {
        let (mode, value) = self.raw_timing();
        MainLoopTiming::from_raw(mode, value)
    }

    /// Reports whether a main loop is registered.
    ///
    /// The host offers no direct query, so this reads the current raw
    /// timing words and writes them back unchanged, using the raw setter's
    /// own success signal as the liveness probe. The write-back provably
    /// leaves the context as it was.
    pub fn is_main_loop_set(&mut self) -> (r: bool)
        ensures
            r == old(self).registered(),
            *final(self) == *old(self),
    {
        let (mode, value) = self.raw_timing();
        self.set_raw_timing(mode, value)
    }

    /// Law: registering a loop and immediately canceling leaves the slot
    /// empty; with the slot goes ownership of the callable and its state,
    /// which is therefore dropped exactly once.
    pub proof fn lemma_register_then_cancel(h: Self, c: C, fps: i32, simulate_infinite_loop: bool)
        ensures
            h.after_register(c, fps, simulate_infinite_loop).after_cancel().slot is None,
            h.after_register(c, fps, simulate_infinite_loop).after_cancel() == (MainLoopHost {
                slot: None,
                ..h.after_register(c, fps, simulate_infinite_loop)
            }),
    {
    }

    /// Law: a second registration fully supersedes the first. The first
    /// callable leaves the model before any tick can step it, so only the
    /// second is ever invoked afterward.
    pub proof fn lemma_register_supersedes(
        h: Self,
        a: C,
        b: C,
        fps_a: i32,
        sim_a: bool,
        fps_b: i32,
        sim_b: bool,
    )
        ensures
            h.after_register(a, fps_a, sim_a).after_register(b, fps_b, sim_b) == h.after_register(
                b,
                fps_b,
                sim_b,
            ),
    {
    }

    /// Law: cancel on an empty slot changes nothing: the unconditional stop
    /// instruction aside, it is a no-op.
    pub proof fn lemma_cancel_empty_noop(h: Self)
        requires
            h.slot is None,
        ensures
            h.after_cancel() == h,
    {
    }

    /// Law: applying a timing descriptor and reading it back yields the
    /// same descriptor, for every modeled descriptor.
    pub proof fn lemma_set_then_get_timing(h: Self, t: MainLoopTiming)
        ensures
            h.after_set_timing(t).current_timing() == Ok::<MainLoopTiming, MainLoopInvalidTiming>(
                t,
            ),
    {
        lemma_timing_round_trip(t);
    }

    /// Law: raw timing words written with an unmodeled mode read back as
    /// the unrecognized outcome carrying exactly the written pair.
    pub proof fn lemma_set_raw_unmodeled(h: Self, mode: i32, value: i32)
        requires
            mode != TIMING_MODE_SETTIMEOUT,
            mode != TIMING_MODE_RAF,
            mode != TIMING_MODE_SETIMMEDIATE,
        ensures
            h.after_raw_timing(mode, value).current_timing() == Err::<
                MainLoopTiming,
                MainLoopInvalidTiming,
            >((MainLoopInvalidTiming { mode, value })),
    {
        lemma_unmodeled_mode_round_trip(mode, value);
    }
}

impl<F: Fn(T) -> T, T> MainLoopHost<StatefulLoop<F, T>> {
    /// Sets the given operation as the main loop of this context, paired
    /// with the state it is to interact with.
    ///
    /// The state is consumed so that it stays alive for as long as the slot
    /// holds the loop. A rate `fps > 0` asks for `fps` calls per second via
    /// a fixed timer; any other rate asks for the display's vsync signal.
    /// With `simulate_infinite_loop` the caller's context is to be unwound
    /// after this call, since the scheduler takes over all invocation.
    pub fn set_main_loop_with_arg(
        &mut self,
        func: F,
        arg: T,
        fps: i32,
        simulate_infinite_loop: bool,
    )
        ensures
            *final(self) == old(self).after_register(
                (StatefulLoop { op: func, state: arg }),
                fps,
                simulate_infinite_loop,
            ),
    {
        self.register_callable(StatefulLoop { op: func, state: arg }, fps, simulate_infinite_loop);
    }
}

impl<F: Fn(()) -> ()> MainLoopHost<StatefulLoop<F, ()>> {
    /// Sets the given operation, which needs no state of its own, as the
    /// main loop of this context.
    pub fn set_main_loop(&mut self, func: F, fps: i32, simulate_infinite_loop: bool)
        ensures
            *final(self) == old(self).after_register(
                (StatefulLoop { op: func, state: () }),
                fps,
                simulate_infinite_loop,
            ),
    {
        self.set_main_loop_with_arg(func, (), fps, simulate_infinite_loop);
    }
}

impl<C: LoopCallable> MainLoopHost<C> {
    /// When the scheduler may deliver a tick: whatever would be invoked
    /// must be ready to run.
    pub open spec fn can_tick(self) -> bool {
        match self.slot {
            Some(c) => self.paused || c.step_req(),
            None => true,
        }
    }

    /// How one scheduler tick relates the context before to after: a
    /// suspended context and an empty slot are left untouched; otherwise
    /// the occupant is stepped in place and everything else is preserved.
    pub open spec fn tick_ens(pre: Self, post: Self) -> bool {
        &&& pre.paused ==> post == pre
        &&& pre.slot is None ==> post == pre
        &&& (!pre.paused && pre.slot is Some) ==> {
            &&& post.slot is Some
            &&& pre.slot->0.step_ens(post.slot->0)
            &&& post.paused == pre.paused
            &&& post.mode == pre.mode
            &&& post.value == pre.value
            &&& post.simulate_infinite_loop == pre.simulate_infinite_loop
        }
    }

    /// One scheduler tick. Unless invocation is suspended, the scheduler
    /// fires the argument-less trampoline, whose only job is to look up
    /// this context's slot and invoke whatever callable is present,
    /// ignoring the call if the slot is empty.
    pub fn tick(&mut self)
        requires
            old(self).can_tick(),
        ensures
            Self::tick_ens(*old(self), *final(self)),
    {
        if !self.paused {
            let occupant = self.slot.take();
            match occupant {
                Some(c) => {
                    self.slot = Some(c.step());
                },
                None => {},
            }
        }
    }

    /// Law: a paused context is untouched by any tick, and resuming it
    /// restores a running context with the same slot: state mutated before
    /// the pause is exactly what the first tick after the resume steps.
    pub proof fn lemma_pause_tick_resume(h: Self, ticked: Self)
        requires
            h.paused,
            Self::tick_ens(h, ticked),
        ensures
            ticked == h,
            ticked.after_resume().slot == h.slot,
            !ticked.after_resume().paused,
    {
    }
}

} // verus!
