use vstd::prelude::*;

verus! {

/// What the ticking thread saw while it waited one interval for a stop signal.
#[derive(Clone, Copy, Debug, PartialEq, Eq, Structural)]
pub enum Wake {
    /// The interval ran out: normal operation.
    Timeout,
    /// It was told to stop.
    Stop,
    /// The stop signal's sender is gone: the owner is shutting down.
    Disconnected,
}

/// Whether the ticking thread posts a tick and waits again: only when the interval ran
/// out; on a stop signal or a lost sender it ends.
pub fn keeps_ticking(w: Wake) -> (r: bool)
    ensures
        r == (w == Wake::Timeout),
{
    match w {
        Wake::Timeout => true,
        Wake::Stop => false,
        Wake::Disconnected => false,
    }
}

/// Starting: afterwards a thread runs; one is spawned only if none ran.
/// The pair is (running afterwards, spawned).
pub open spec fn start_model(running: bool) -> (bool, bool) {
    (true, !running)
}

/// Stopping: afterwards no thread runs; one is joined only if one ran.
/// The pair is (running afterwards, joined).
pub open spec fn stop_model(running: bool) -> (bool, bool) {
    (false, running)
}

/// Starting twice in a row leaves exactly one ticking thread: the one that ran before,
/// or the one the first start spawned. Stopping a stopped ticker joins nothing and
/// leaves it stopped.
pub proof fn law_start_is_idempotent(running: bool)
    ensures
        ({
            let (after_first, spawned_first) = start_model(running);
            let (after_second, spawned_second) = start_model(after_first);
            &&& after_second
            &&& !spawned_second
            &&& (if running {
                1int
            } else {
                0int
            }) + (if spawned_first {
                1int
            } else {
                0int
            }) + (if spawned_second {
                1int
            } else {
                0int
            }) == 1
        }),
        stop_model(false) == (false, false),
{
}

/// Holds the handle of the ticking thread, if one runs, so that at most one does.
pub struct Timekeeper<H> {
    thread: Option<H>,
}

impl<H> Timekeeper<H> {
    /// A thread is running.
    pub closed spec fn running(&self) -> bool {
        self.thread is Some
    }

    /// The running thread's handle.
    pub closed spec fn handle(&self) -> Option<H> {
        self.thread
    }

    /// No thread running.
    pub fn new() -> (r: Self)
        ensures
            !r.running(),
    {
        Timekeeper { thread: None }
    }

    pub fn is_running(&self) -> (r: bool)
        ensures
            r == self.running(),
    {
        self.thread.is_some()
    }

    /// Starts a thread by calling `spawn`, unless one already runs: then `spawn` is
    /// not called and nothing changes. Returns whether it spawned.
    pub fn start<F: FnOnce() -> H>(&mut self, spawn: F) -> (spawned: bool)
        requires
            spawn.requires(()),
        ensures
            (final(self).running(), spawned) == start_model(old(self).running()),
            !spawned ==> final(self).handle() == old(self).handle(),
            spawned ==> call_ensures(spawn, (), final(self).handle()->0),
    {
        if self.thread.is_some() {
            return false;
        }
        let h = spawn();
        self.thread = Some(h);
        true
    }

    /// Hands back the running thread's handle, for the caller to signal and join,
    /// and marks the ticker stopped. Without a running thread it returns `None`.
    pub fn stop(&mut self) -> (r: Option<H>)
        ensures
            (final(self).running(), r is Some) == stop_model(old(self).running()),
            r == old(self).handle(),
    {
        self.thread.take()
    }
}

} // verus!
