//! The dispatch engine.
//!
//! Per-request orchestration is a state machine: `advance` takes the
//! current phase and one event and decides the next phase and the next
//! action (run the compute step and where, arm the delay and how, write
//! which reply). The runtime around the library performs the actions on
//! the named execution contexts and hands the resulting events back, so
//! every scheduling decision is made — and checked — here.
//!
//! `Dispatcher` is the engine's occupancy model: how many requests stand
//! in each stage, and how many workers of the shared pool that holds
//! under the configured strategy.

use vstd::prelude::*;

use crate::decode::deserialize_body;
use crate::decode::json_int_batch;
use crate::decode::Error;
use crate::pool::WorkerPool;
use crate::response::bad_request_body;
use crate::response::bad_request_response;
use crate::response::body_of_sum;
use crate::response::build_ok_response;
use crate::response::server_error_body;
use crate::response::server_error_response;
use crate::response::Response;
use crate::response::STATUS_BAD_REQUEST;
use crate::response::STATUS_OK;
use crate::response::STATUS_SERVER_ERROR;
use crate::strategy::Config;
use crate::strategy::DelayMechanism;

verus! {

/// Where one request stands in its fixed pipeline. The pipeline never
/// reorders: body, then compute, then delay, then reply.
pub enum Phase {
    /// Waiting for the body bytes to be buffered.
    AwaitingBody,
    /// The compute step is running wherever the strategy placed it.
    Computing,
    /// The sum is known; the simulated latency is in flight.
    Delaying { sum: i64 },
    /// The reply with this status is being transmitted; `failed` records
    /// the per-request error the reply reports, if any.
    Writing { status: u16, failed: Option<Error> },
    /// The request is over; `error` records how it failed, if it did.
    Finished { error: Option<Error> },
}

/// One thing the runtime reports back to the engine.
pub enum Event {
    /// The whole body arrived.
    BodyOk { bytes: Vec<u8> },
    /// Reading the body failed.
    BodyFailed,
    /// The compute step delivered this sum.
    ComputeDone { sum: i64 },
    /// The simulated latency elapsed.
    DelayElapsed,
    /// Arming or firing the delay mechanism failed.
    DelayFailed,
    /// The reply was transmitted.
    WriteDone,
    /// Transmitting the reply failed.
    WriteFailed,
}

/// One thing the engine tells the runtime to do next.
pub enum Action {
    /// Run the compute step on this batch: on a worker-pool context when
    /// `on_pool`, else inline on the reactor thread.
    RunCompute { batch: Vec<i64>, on_pool: bool },
    /// Arm the simulated latency with the given mechanism.
    StartDelay { delay_ms: u64, mechanism: DelayMechanism },
    /// Transmit this reply.
    WriteResponse { response: Response },
    /// Drop the connection without a reply.
    DropConnection,
}

/// The phase after handling `event` in `phase`. An event that does not
/// belong to the phase changes nothing.
pub open spec fn next_phase(cfg: Config, phase: Phase, event: Event) -> Phase {
    match (phase, event) {
        (Phase::AwaitingBody, Event::BodyOk { bytes }) => {
            if json_int_batch(bytes@) is Some {
                Phase::Computing
            } else {
                Phase::Writing { status: STATUS_BAD_REQUEST, failed: Some(Error::Json) }
            }
        },
        (Phase::AwaitingBody, Event::BodyFailed) => Phase::Finished {
            error: Some(Error::Transport),
        },
        (Phase::Computing, Event::ComputeDone { sum }) => Phase::Delaying { sum },
        (Phase::Delaying { .. }, Event::DelayElapsed) => Phase::Writing {
            status: STATUS_OK,
            failed: None,
        },
        (Phase::Delaying { .. }, Event::DelayFailed) => Phase::Writing {
            status: STATUS_SERVER_ERROR,
            failed: Some(Error::Timer),
        },
        (Phase::Writing { failed, .. }, Event::WriteDone) => Phase::Finished { error: failed },
        (Phase::Writing { .. }, Event::WriteFailed) => Phase::Finished {
            error: Some(Error::Transport),
        },
        (p, _) => p,
    }
}

/// What action handling `event` in `phase` must emit.
pub open spec fn action_ok(cfg: Config, phase: Phase, event: Event, action: Option<
    Action,
>) -> bool {
    match (phase, event) {
        (Phase::AwaitingBody, Event::BodyOk { bytes }) => (match json_int_batch(bytes@) {
            Some(nums) => action matches Some(Action::RunCompute { batch, on_pool })
                && batch@ == nums && on_pool == cfg.strategy.spec_compute_on_pool(),
            None => action matches Some(Action::WriteResponse { response }) && response.status
                == STATUS_BAD_REQUEST && response.body@ == bad_request_body(),
        }),
        (Phase::AwaitingBody, Event::BodyFailed) => action matches Some(Action::DropConnection),
        (Phase::Computing, Event::ComputeDone { .. }) => action matches Some(
            Action::StartDelay { delay_ms, mechanism },
        ) && delay_ms == cfg.delay_ms && mechanism == cfg.strategy.spec_delay_mechanism(),
        (Phase::Delaying { sum }, Event::DelayElapsed) => action matches Some(
            Action::WriteResponse { response },
        ) && response.status == STATUS_OK && response.body@ == body_of_sum(sum),
        (Phase::Delaying { .. }, Event::DelayFailed) => action matches Some(
            Action::WriteResponse { response },
        ) && response.status == STATUS_SERVER_ERROR && response.body@ == server_error_body(),
        _ => action is None,
    }
}

/// Decide one step of one request: the next phase and the action the
/// runtime must perform. Total over every phase/event pair; per-request
/// failures become replies or dropped connections, never a crash.
pub fn advance(cfg: &Config, phase: Phase, event: Event) -> (r: (Phase, Option<Action>))
    ensures
        r.0 == next_phase(*cfg, phase, event),
        action_ok(*cfg, phase, event, r.1),
{
    match (phase, event) {
        (Phase::AwaitingBody, Event::BodyOk { bytes }) => {
            match deserialize_body(bytes.as_slice()) {
                Ok(batch) => (
                    Phase::Computing,
                    Some(Action::RunCompute { batch, on_pool: cfg.strategy.compute_on_pool() }),
                ),
                Err(_) => (
                    Phase::Writing { status: STATUS_BAD_REQUEST, failed: Some(Error::Json) },
                    Some(Action::WriteResponse { response: bad_request_response() }),
                ),
            }
        },
        (Phase::AwaitingBody, Event::BodyFailed) => (
            Phase::Finished { error: Some(Error::Transport) },
            Some(Action::DropConnection),
        ),
        (Phase::Computing, Event::ComputeDone { sum }) => (
            Phase::Delaying { sum },
            Some(
                Action::StartDelay {
                    delay_ms: cfg.delay_ms,
                    mechanism: cfg.strategy.delay_mechanism(),
                },
            ),
        ),
        (Phase::Delaying { sum }, Event::DelayElapsed) => (
            Phase::Writing { status: STATUS_OK, failed: None },
            Some(Action::WriteResponse { response: build_ok_response(sum) }),
        ),
        (Phase::Delaying { .. }, Event::DelayFailed) => (
            Phase::Writing { status: STATUS_SERVER_ERROR, failed: Some(Error::Timer) },
            Some(Action::WriteResponse { response: server_error_response() }),
        ),
        (Phase::Writing { status: _, failed }, Event::WriteDone) => (
            Phase::Finished { error: failed },
            None,
        ),
        (Phase::Writing { status: _, failed: _ }, Event::WriteFailed) => (
            Phase::Finished { error: Some(Error::Transport) },
            None,
        ),
        (p, _) => (p, None),
    }
}

/// Position of a phase in the fixed pipeline order.
pub open spec fn phase_rank(phase: Phase) -> nat {
    match phase {
        Phase::AwaitingBody => 0,
        Phase::Computing => 1,
        Phase::Delaying { .. } => 2,
        Phase::Writing { .. } => 3,
        Phase::Finished { .. } => 4,
    }
}

/// Within one request the pipeline never moves backward: no event can
/// take a request from its delay back to its compute step, or from its
/// reply back to its delay, so the stages are visited in order.
pub proof fn lemma_pipeline_order(cfg: Config, phase: Phase, event: Event)
    ensures
        phase_rank(next_phase(cfg, phase, event)) >= phase_rank(phase),
{
}

/// A success reply is emitted only when the delay of a request that
/// already holds its sum elapses, and it carries exactly that sum: the
/// measured latency of a 200 reply is bounded below by the configured
/// delay.
pub proof fn lemma_ok_reply_only_after_delay(
    cfg: Config,
    phase: Phase,
    event: Event,
    action: Option<Action>,
)
    requires
        action_ok(cfg, phase, event, action),
        (action matches Some(Action::WriteResponse { response }) && response.status == STATUS_OK),
    ensures
        phase is Delaying,
        event is DelayElapsed,
        (action matches Some(Action::WriteResponse { response }) && response.body@ == body_of_sum(
            phase->sum,
        )),
{
}

/// Round trip at the engine level: for request bytes that decode, the
/// pipeline that feeds the compute step's own result back in passes
/// through each stage exactly once — compute, delay, reply — and ends
/// finished without error, with the success reply carrying the batch's
/// sum. Exactly one sum is computed per request, before exactly one
/// reply is emitted.
pub proof fn lemma_engine_round_trip(cfg: Config, bytes: Vec<u8>, sum: i64)
    requires
        json_int_batch(bytes@) is Some,
        sum == crate::batch::sum_spec(json_int_batch(bytes@).unwrap()),
    ensures
        next_phase(cfg, Phase::AwaitingBody, Event::BodyOk { bytes }) == Phase::Computing,
        next_phase(cfg, Phase::Computing, Event::ComputeDone { sum }) == (Phase::Delaying { sum }),
        next_phase(cfg, Phase::Delaying { sum }, Event::DelayElapsed) == (Phase::Writing {
            status: STATUS_OK,
            failed: None,
        }),
        next_phase(
            cfg,
            Phase::Writing { status: STATUS_OK, failed: None },
            Event::WriteDone,
        ) == (Phase::Finished { error: None }),
        forall|action: Option<Action>|
            action_ok(cfg, Phase::Delaying { sum }, Event::DelayElapsed, action) ==> (
            action matches Some(Action::WriteResponse { response }) && response.status == STATUS_OK
                && response.body@ == body_of_sum(sum)),
{
}

/// Occupancy model of the engine: how many requests stand in each stage
/// and how many workers of the shared pool that holds. The Connection
/// Dispatcher accepts without ever touching the pool; workers are
/// borrowed exactly as the strategy dictates.
pub struct Dispatcher {
    pub cfg: Config,
    pub pool: WorkerPool,
    /// Accepted requests waiting for an execution slot.
    pub queued: usize,
    /// Requests whose compute step is running.
    pub computing: usize,
    /// Requests whose simulated latency is running.
    pub delaying: usize,
}

impl Dispatcher {
    /// Workers the in-flight requests hold under the configured
    /// strategy: one per request through compute and delay when the
    /// delay occupies its worker; one per computing request when only
    /// the compute step is offloaded; none when everything runs on the
    /// reactor thread.
    pub open spec fn spec_workers_held(self) -> nat {
        if self.cfg.strategy.spec_delay_holds_worker() {
            (self.computing + self.delaying) as nat
        } else if self.cfg.strategy.spec_compute_on_pool() {
            self.computing as nat
        } else {
            0
        }
    }

    /// Well-formedness: the pool is the configured one and its occupancy
    /// is exactly what the in-flight requests hold.
    pub open spec fn wf(self) -> bool {
        &&& self.pool.wf()
        &&& self.pool.spec_capacity() == self.cfg.pool_capacity
        &&& self.pool.spec_busy() == self.spec_workers_held()
    }

    /// Create the engine at startup with an idle pool and no requests.
    pub fn new(cfg: Config) -> (d: Dispatcher)
        ensures
            d.wf(),
            d.cfg == cfg,
            d.queued == 0,
            d.computing == 0,
            d.delaying == 0,
    {
        Dispatcher {
            cfg,
            pool: WorkerPool::new(cfg.pool_capacity),
            queued: 0,
            computing: 0,
            delaying: 0,
        }
    }

    /// Accept one more connection. Acceptance never blocks on
    /// request-processing work and never costs a worker, however many
    /// requests are in flight; nothing is dropped.
    pub fn accept(&mut self)
        requires
            old(self).wf(),
            old(self).queued < usize::MAX,
        ensures
            final(self).wf(),
            final(self).cfg == old(self).cfg,
            final(self).queued == old(self).queued + 1,
            final(self).computing == old(self).computing,
            final(self).delaying == old(self).delaying,
            final(self).pool.spec_busy() == old(self).pool.spec_busy(),
    {
        self.queued = self.queued + 1;
    }

    /// Move one queued request into its compute step. On the reactor
    /// strategy this always proceeds; on the pool-bound strategies it
    /// proceeds exactly when a worker is free, and otherwise the request
    /// stays queued — it waits, it is not dropped.
    pub fn start_compute(&mut self) -> (started: bool)
        requires
            old(self).wf(),
            old(self).queued > 0,
            old(self).computing < usize::MAX,
        ensures
            final(self).wf(),
            final(self).cfg == old(self).cfg,
            final(self).delaying == old(self).delaying,
            started ==> final(self).queued == old(self).queued - 1,
            started ==> final(self).computing == old(self).computing + 1,
            !started ==> final(self).queued == old(self).queued,
            !started ==> final(self).computing == old(self).computing,
            !started ==> final(self).pool.spec_busy() == old(self).pool.spec_busy(),
            !old(self).cfg.strategy.spec_compute_on_pool() ==> started,
            !old(self).cfg.strategy.spec_compute_on_pool() ==> final(self).pool.spec_busy()
                == old(self).pool.spec_busy(),
            old(self).cfg.strategy.spec_compute_on_pool() ==> started == (old(self).pool.spec_busy()
                < old(self).pool.spec_capacity()),
    {
        if self.cfg.strategy.compute_on_pool() {
            if self.pool.try_acquire() {
                self.queued = self.queued - 1;
                self.computing = self.computing + 1;
                true
            } else {
                false
            }
        } else {
            self.queued = self.queued - 1;
            self.computing = self.computing + 1;
            true
        }
    }

    /// Move one computing request into its delay. When the delay holds
    /// its worker the worker stays borrowed for the whole wait; under
    /// the non-blocking-timer strategies the delay costs no worker: the
    /// pool-offloaded compute releases its worker here, and the reactor
    /// strategy never held one.
    pub fn start_delay(&mut self)
        requires
            old(self).wf(),
            old(self).computing > 0,
            old(self).delaying < usize::MAX,
        ensures
            final(self).wf(),
            final(self).cfg == old(self).cfg,
            final(self).queued == old(self).queued,
            final(self).computing == old(self).computing - 1,
            final(self).delaying == old(self).delaying + 1,
            old(self).cfg.strategy.spec_delay_holds_worker() ==> final(self).pool.spec_busy()
                == old(self).pool.spec_busy(),
            !old(self).cfg.strategy.spec_delay_holds_worker() ==> final(self).pool.spec_busy()
                == final(self).computing * (
            if old(self).cfg.strategy.spec_compute_on_pool() {
                1int
            } else {
                0int
            }),
    {
        proof {
            assert(old(self).cfg.strategy.spec_compute_on_pool()
                ==> old(self).pool.spec_busy() > 0);
        }
        if self.cfg.strategy.delay_holds_worker() {
            self.computing = self.computing - 1;
            self.delaying = self.delaying + 1;
        } else if self.cfg.strategy.compute_on_pool() {
            self.pool.release();
            self.computing = self.computing - 1;
            self.delaying = self.delaying + 1;
        } else {
            self.computing = self.computing - 1;
            self.delaying = self.delaying + 1;
        }
    }

    /// Retire one request whose delay elapsed (or failed): its reply is
    /// written and, if the delay held a worker, that worker returns to
    /// the pool.
    pub fn finish_request(&mut self)
        requires
            old(self).wf(),
            old(self).delaying > 0,
        ensures
            final(self).wf(),
            final(self).cfg == old(self).cfg,
            final(self).queued == old(self).queued,
            final(self).computing == old(self).computing,
            final(self).delaying == old(self).delaying - 1,
            old(self).cfg.strategy.spec_delay_holds_worker() ==> final(self).pool.spec_busy()
                == old(self).pool.spec_busy() - 1,
            !old(self).cfg.strategy.spec_delay_holds_worker() ==> final(self).pool.spec_busy()
                == old(self).pool.spec_busy(),
    {
        proof {
            assert(old(self).cfg.strategy.spec_delay_holds_worker()
                ==> old(self).pool.spec_busy() > 0);
        }
        if self.cfg.strategy.delay_holds_worker() {
            self.pool.release();
            self.delaying = self.delaying - 1;
        } else {
            self.delaying = self.delaying - 1;
        }
    }
}

/// Under the worker-bound strategies the pool size caps concurrency:
/// however many connections were accepted, at most `pool_capacity`
/// requests are between compute start and delay end at any moment; the
/// excess sits in the queue, none are dropped.
pub proof fn lemma_pool_caps_in_flight(d: Dispatcher)
    requires
        d.wf(),
        d.cfg.strategy.spec_delay_holds_worker(),
    ensures
        d.computing + d.delaying <= d.cfg.pool_capacity,
{
}

/// Under the non-blocking-timer strategies a request in its delay holds
/// no worker: the pool's occupancy does not depend on how many requests
/// are delaying, so any number of them wait concurrently and N modest
/// concurrent requests finish in about one delay, not N in a row.
pub proof fn lemma_delay_costs_no_worker(d: Dispatcher)
    requires
        d.wf(),
        !d.cfg.strategy.spec_delay_holds_worker(),
    ensures
        d.pool.spec_busy() == (
        if d.cfg.strategy.spec_compute_on_pool() {
            d.computing as nat
        } else {
            0
        }),
{
}

} // verus!
