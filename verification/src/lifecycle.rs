//! The run lifecycle: one process-wide flag, set before any pool starts,
//! cleared exactly once to request shutdown, and polled cooperatively by
//! every task at each loop head.

use vstd::prelude::*;

verus! {

/// The process-wide running flag, created once by the top-level driver and
/// passed by shared reference into every pool and task. It moves from
/// running to stopped exactly once: `request_stop` is the only mutator,
/// and it only ever clears the flag.
pub struct RunLifecycle {
    running: bool,
}

impl RunLifecycle {
    /// Whether the flag still allows tasks to keep looping.
    pub closed spec fn spec_is_running(&self) -> bool {
        self.running
    }

    /// Starts a run: the flag is true before any pool starts.
    pub fn start() -> (l: RunLifecycle)
        ensures
            l.spec_is_running(),
    {
        RunLifecycle { running: true }
    }

    /// Reads the flag without blocking.
    pub fn is_running(&self) -> (b: bool)
        ensures
            b == self.spec_is_running(),
    {
        self.running
    }

    /// Requests shutdown: whatever the flag held, it is false afterwards,
    /// and no operation ever sets it back.
    pub fn request_stop(&mut self)
        ensures
            !final(self).spec_is_running(),
    {
        self.running = false;
    }
}

/// What a task's loop does at its head after observing the running flag.
#[derive(Debug, PartialEq, Eq, Structural)]
pub enum TaskStep {
    Continue,
    Exit,
}

/// One loop-head decision: a task keeps going exactly while the flag it
/// observed is true. So once shutdown is requested, every active task exits
/// at its next loop head — after at most the one iteration (or in-flight
/// operation) it had already started.
pub fn task_continue(running: bool) -> (s: TaskStep)
    ensures
        s == TaskStep::Exit <==> !running,
{
    if running {
        TaskStep::Continue
    } else {
        TaskStep::Exit
    }
}

} // verus!
