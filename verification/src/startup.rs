//! The phase and thread guard.
//!
//! The simulator may be called only after its startup phase, and only from
//! the thread that hosts the simulation. [`StartupState`] records both facts
//! in two latches. Each latch starts unset, is set once, and is read any number
//! of times afterwards. Every function of this crate that hands out a native
//! request asks for [`StartupState::permits`].

use vstd::prelude::*;

verus! {

/// The two latches: whether the startup phase has finished, and which thread
/// is the main one. Threads are told apart by a number of the caller's choice.
#[derive(Debug)]
pub struct StartupState {
    init_finished: bool,
    main_thread_id: Option<u64>,
}

impl StartupState {
    /// Whether the startup phase has finished.
    pub closed spec fn startup_finished(&self) -> bool {
        self.init_finished
    }

    /// The main thread, once it has been recorded.
    pub closed spec fn main_thread(&self) -> Option<u64> {
        self.main_thread_id
    }

    /// Whether `thread` may call into the simulator: the startup phase is
    /// over, the main thread is known, and `thread` is that thread.
    pub open spec fn permits(&self, thread: u64) -> bool {
        self.startup_finished() && self.main_thread() == Some(thread)
    }

    /// Both latches unset.
    pub fn new() -> (r: StartupState)
        ensures
            !r.startup_finished(),
            r.main_thread() is None,
    {
        StartupState { init_finished: false, main_thread_id: None }
    }

    /// Records `this_thread_id` as the main thread. The latch must be unset.
    pub fn mark_main_thread(&mut self, this_thread_id: u64)
        requires
            old(self).main_thread() is None,
        ensures
            final(self).main_thread() == Some(this_thread_id),
            final(self).startup_finished() == old(self).startup_finished(),
    {
        self.main_thread_id = Some(this_thread_id);
    }

    /// Records that the startup phase has finished. The latch must be unset.
    pub fn mark_startup_finished(&mut self)
        requires
            !old(self).startup_finished(),
        ensures
            final(self).startup_finished(),
            final(self).main_thread() == old(self).main_thread(),
    {
        self.init_finished = true;
    }

    /// Whether the main thread has been recorded.
    pub fn main_thread_recorded(&self) -> (r: bool)
        ensures
            r == self.main_thread() is Some,
    {
        self.main_thread_id.is_some()
    }

    /// Whether `this_thread_id` may call into the simulator.
    pub fn may_call(&self, this_thread_id: u64) -> (r: bool)
        ensures
            r == self.permits(this_thread_id),
    {
        match self.main_thread_id {
            Some(main_thread_id) => self.init_finished && main_thread_id == this_thread_id,
            None => false,
        }
    }
}

/// Whether the startup phase is still going on, during which the simulator
/// must not be called.
pub fn in_startup_routine(state: &StartupState) -> (r: bool)
    ensures
        r == !state.startup_finished(),
{
    !state.init_finished
}

/// Whether `this_thread_id` is the main thread. The main thread must have
/// been recorded.
pub fn is_main_thread(state: &StartupState, this_thread_id: u64) -> (r: bool)
    requires
        state.main_thread() is Some,
    ensures
        r == (state.main_thread() == Some(this_thread_id)),
{
    match state.main_thread_id {
        Some(main_thread_id) => this_thread_id == main_thread_id,
        None => false,
    }
}

/// The guard lets no thread pass while the startup phase goes on or the main
/// thread is unknown, and it never lets two threads pass.
pub proof fn lemma_guard(state: StartupState, thread: u64, other: u64)
    ensures
        !state.startup_finished() ==> !state.permits(thread),
        state.main_thread() is None ==> !state.permits(thread),
        state.permits(thread) && state.permits(other) ==> thread == other,
{
}

} // verus!
