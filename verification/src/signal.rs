//! The run-control signal — a single-slot, overwrite-on-send mailbox for the
//! requested run duration — and the worker lifecycle transitions around it.

use vstd::prelude::*;

use crate::config::Config;

verus! {

/// At most one pending run request; a new `send` overwrites an unconsumed one.
pub struct RunSignal {
    pending: Option<u64>,
}

impl View for RunSignal {
    type V = Option<u64>;

    closed spec fn view(&self) -> Option<u64> {
        self.pending
    }
}

impl RunSignal {
    /// An empty slot: no run requested yet.
    pub fn new() -> (r: RunSignal)
        ensures
            r@ == None::<u64>,
    {
        RunSignal { pending: None }
    }

    /// Stores a requested duration, overwriting any unconsumed request.
    pub fn send(&mut self, duration: u64)
        ensures
            final(self)@ == Some(duration),
    {
        self.pending = Some(duration);
    }

    /// The pending request, if any; reading does not clear the slot.
    pub fn peek(&self) -> (r: Option<u64>)
        ensures
            r == self@,
    {
        self.pending
    }

    /// Clears the slot; the caller does this after consuming a request.
    pub fn reset(&mut self)
        ensures
            final(self)@ == None::<u64>,
    {
        self.pending = None;
    }
}

/// Whether the worker is waiting for a request or inside a collection cycle.
#[derive(Clone, Copy, Debug, PartialEq, Eq, Structural)]
pub enum WorkerPhase {
    Idle,
    Running,
}

/// The worker lifecycle: forever alternating between waiting and running,
/// initializing the collector once before its first cycle.
pub struct Worker {
    pub phase: WorkerPhase,
    pub initialized: bool,
}

/// Everything one collection cycle needs: the requested duration, whether
/// collector initialization is still owed, and an owned configuration
/// snapshot taken before the run.
pub struct RunPlan {
    pub duration: u64,
    pub needs_init: bool,
    pub snapshot: Config,
}

impl Worker {
    pub fn new() -> (r: Worker)
        ensures
            r.phase is Idle,
            !r.initialized,
    {
        Worker { phase: WorkerPhase::Idle, initialized: false }
    }

    /// Accepts a run request: snapshots the configuration and moves to
    /// Running.  Initialization is requested exactly on the first cycle.
    pub fn begin_run(&mut self, duration: u64, cfg: &Config) -> (p: RunPlan)
        requires
            old(self).phase is Idle,
        ensures
            final(self).phase is Running,
            final(self).initialized,
            p.duration == duration,
            p.needs_init == !old(self).initialized,
            p.snapshot == *cfg,
    {
        let needs_init = !self.initialized;
        self.initialized = true;
        self.phase = WorkerPhase::Running;
        RunPlan { duration, needs_init, snapshot: cfg.snapshot() }
    }

    /// Ends a cycle: clears the consumed request and returns to Idle, so the
    /// next request is served with a fresh snapshot.
    pub fn finish_run(&mut self, sig: &mut RunSignal)
        requires
            old(self).phase is Running,
        ensures
            final(self).phase is Idle,
            final(self).initialized == old(self).initialized,
            final(sig)@ == None::<u64>,
    {
        sig.reset();
        self.phase = WorkerPhase::Idle;
    }
}

} // verus!
