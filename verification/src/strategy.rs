//! Execution strategies: where the compute step and the latency step run
//! relative to the connection-accepting path.
//!
//! All four variants satisfy the same contract — given an integer batch,
//! produce a sum after a fixed simulated delay, without blocking the
//! thread that accepts connections — and differ only in where blocking
//! occurs and how many threads are involved.

use vstd::prelude::*;

verus! {

/// How the simulated latency is realised.
#[derive(Debug, Clone, Copy, PartialEq, Eq, Structural)]
pub enum DelayMechanism {
    /// A non-blocking timer registered with the event loop; no thread is
    /// occupied while it runs.
    EventTimer,
    /// A worker thread synchronously awaits a timer's completion and is
    /// occupied for the whole delay.
    WorkerAwaitsTimer,
    /// A worker thread sleeps for the delay and is occupied for the
    /// whole of it.
    WorkerSleeps,
}

/// The four interchangeable scheduling policies.
#[derive(Debug, Clone, Copy, PartialEq, Eq, Structural)]
pub enum Strategy {
    /// Compute inline on the single reactor thread; delay via a
    /// non-blocking timer. Cheapest when compute is trivial: the wait
    /// costs no thread at all.
    ReactorTimer,
    /// Compute offloaded to the bounded worker pool; delay via the same
    /// non-blocking timer, scheduled after compute completes. CPU-heavy
    /// batches no longer stall other connections.
    PoolComputeTimer,
    /// The entire pipeline runs inside one worker, which synchronously
    /// awaits a non-blocking timer; the worker serves no other request
    /// until the delay elapses.
    PoolWaitTimer,
    /// The entire pipeline runs inside one worker, which sleeps for the
    /// delay; same concurrency ceiling as awaiting the timer.
    PoolSleep,
}

impl Strategy {
    /// Whether the compute step runs on a worker-pool context rather
    /// than the reactor thread.
    pub open spec fn spec_compute_on_pool(self) -> bool {
        self != Strategy::ReactorTimer
    }

    /// Whether a worker stays occupied for the whole delay.
    pub open spec fn spec_delay_holds_worker(self) -> bool {
        self == Strategy::PoolWaitTimer || self == Strategy::PoolSleep
    }

    /// How this strategy realises the delay.
    pub open spec fn spec_delay_mechanism(self) -> DelayMechanism {
        match self {
            Strategy::ReactorTimer => DelayMechanism::EventTimer,
            Strategy::PoolComputeTimer => DelayMechanism::EventTimer,
            Strategy::PoolWaitTimer => DelayMechanism::WorkerAwaitsTimer,
            Strategy::PoolSleep => DelayMechanism::WorkerSleeps,
        }
    }

    /// Whether the compute step runs on a worker-pool context.
    pub fn compute_on_pool(&self) -> (r: bool)
        ensures
            r == self.spec_compute_on_pool(),
    {
        !matches!(self, Strategy::ReactorTimer)
    }

    /// Whether a worker stays occupied for the whole delay.
    pub fn delay_holds_worker(&self) -> (r: bool)
        ensures
            r == self.spec_delay_holds_worker(),
    {
        matches!(self, Strategy::PoolWaitTimer | Strategy::PoolSleep)
    }

    /// How this strategy realises the delay.
    pub fn delay_mechanism(&self) -> (r: DelayMechanism)
        ensures
            r == self.spec_delay_mechanism(),
    {
        match self {
            Strategy::ReactorTimer => DelayMechanism::EventTimer,
            Strategy::PoolComputeTimer => DelayMechanism::EventTimer,
            Strategy::PoolWaitTimer => DelayMechanism::WorkerAwaitsTimer,
            Strategy::PoolSleep => DelayMechanism::WorkerSleeps,
        }
    }
}

/// The two worker-bound variants differ only in mechanism, not in the
/// resource they consume: both occupy a worker for the whole delay, so
/// both cap concurrent in-flight requests at the pool size.
pub proof fn lemma_blocking_variants_equivalent()
    ensures
        Strategy::PoolWaitTimer.spec_delay_holds_worker()
            == Strategy::PoolSleep.spec_delay_holds_worker(),
        Strategy::PoolWaitTimer.spec_delay_mechanism()
            != Strategy::PoolSleep.spec_delay_mechanism(),
{
}

/// Startup configuration of the dispatch engine: the chosen strategy,
/// the simulated latency, and the worker-pool size.
#[derive(Debug, Clone, Copy, PartialEq, Eq, Structural)]
pub struct Config {
    pub strategy: Strategy,
    pub delay_ms: u64,
    pub pool_capacity: usize,
}

impl Config {
    /// Assemble a configuration.
    pub fn new(strategy: Strategy, delay_ms: u64, pool_capacity: usize) -> (cfg: Config)
        ensures
            cfg.strategy == strategy,
            cfg.delay_ms == delay_ms,
            cfg.pool_capacity == pool_capacity,
    {
        Config { strategy, delay_ms, pool_capacity }
    }
}

} // verus!
