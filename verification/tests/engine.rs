use async_bench::batch::sum_batch;
use async_bench::decode::Error;
use async_bench::dispatch::advance;
use async_bench::dispatch::Action;
use async_bench::dispatch::Dispatcher;
use async_bench::dispatch::Event;
use async_bench::dispatch::Phase;
use async_bench::pool::WorkerPool;
use async_bench::strategy::Config;
use async_bench::strategy::DelayMechanism;
use async_bench::strategy::Strategy;
use async_bench::DEFAULT_DELAY_MS;
use async_bench::POOL_SIZE;

#[test]
fn strategy_placement_flags() {
    assert!(!Strategy::ReactorTimer.compute_on_pool());
    assert!(Strategy::PoolComputeTimer.compute_on_pool());
    assert!(Strategy::PoolWaitTimer.compute_on_pool());
    assert!(Strategy::PoolSleep.compute_on_pool());

    assert!(!Strategy::ReactorTimer.delay_holds_worker());
    assert!(!Strategy::PoolComputeTimer.delay_holds_worker());
    assert!(Strategy::PoolWaitTimer.delay_holds_worker());
    assert!(Strategy::PoolSleep.delay_holds_worker());
}

#[test]
fn blocking_variants_differ_only_in_mechanism() {
    assert_eq!(
        Strategy::PoolWaitTimer.delay_holds_worker(),
        Strategy::PoolSleep.delay_holds_worker()
    );
    assert_eq!(Strategy::PoolWaitTimer.delay_mechanism(), DelayMechanism::WorkerAwaitsTimer);
    assert_eq!(Strategy::PoolSleep.delay_mechanism(), DelayMechanism::WorkerSleeps);
    assert_eq!(Strategy::ReactorTimer.delay_mechanism(), DelayMechanism::EventTimer);
    assert_eq!(Strategy::PoolComputeTimer.delay_mechanism(), DelayMechanism::EventTimer);
}

#[test]
fn worker_pool_never_over_commits() {
    let mut pool = WorkerPool::new(POOL_SIZE);
    for _ in 0..POOL_SIZE {
        assert!(pool.try_acquire());
    }
    assert!(!pool.try_acquire());
    assert!(!pool.try_acquire());
    pool.release();
    assert!(pool.try_acquire());
    assert!(!pool.try_acquire());
}

#[test]
fn pool_bound_strategy_caps_in_flight_requests() {
    let cfg = Config::new(Strategy::PoolSleep, DEFAULT_DELAY_MS, 2);
    let mut d = Dispatcher::new(cfg);
    for _ in 0..5 {
        d.accept();
    }
    assert_eq!(d.queued, 5);

    assert!(d.start_compute());
    assert!(d.start_compute());
    // Both workers are occupied: the third request stays queued.
    assert!(!d.start_compute());
    assert_eq!(d.queued, 3);
    assert_eq!(d.computing, 2);

    // The delay keeps the workers occupied, so nothing new starts.
    d.start_delay();
    d.start_delay();
    assert_eq!(d.delaying, 2);
    assert!(!d.start_compute());

    // Only a finished request frees a worker for the queue.
    d.finish_request();
    assert!(d.start_compute());
}

#[test]
fn reactor_strategy_delays_without_workers() {
    let cfg = Config::new(Strategy::ReactorTimer, 200, 1);
    let mut d = Dispatcher::new(cfg);
    for _ in 0..5 {
        d.accept();
    }
    // Every request proceeds, far past the pool capacity of one, because
    // neither compute nor delay occupies a worker.
    for _ in 0..5 {
        assert!(d.start_compute());
        d.start_delay();
    }
    assert_eq!(d.delaying, 5);
    for _ in 0..5 {
        d.finish_request();
    }
    assert_eq!(d.delaying, 0);
}

#[test]
fn offloaded_compute_frees_its_worker_before_the_delay() {
    let cfg = Config::new(Strategy::PoolComputeTimer, DEFAULT_DELAY_MS, 1);
    let mut d = Dispatcher::new(cfg);
    d.accept();
    d.accept();
    assert!(d.start_compute());
    // The single worker is busy computing.
    assert!(!d.start_compute());
    // Entering the delay hands the worker back: the next request computes
    // while the first one waits out its latency.
    d.start_delay();
    assert!(d.start_compute());
    assert_eq!(d.delaying, 1);
    assert_eq!(d.computing, 1);
}

#[test]
fn full_pipeline_in_order() {
    let cfg = Config::new(Strategy::ReactorTimer, 200, POOL_SIZE);

    let (phase, action) = advance(&cfg, Phase::AwaitingBody, Event::BodyOk {
        bytes: b"[10,20,30]".to_vec(),
    });
    assert!(matches!(phase, Phase::Computing));
    let batch = match action {
        Some(Action::RunCompute { batch, on_pool }) => {
            assert!(!on_pool);
            batch
        }
        _ => panic!("expected a compute action"),
    };
    assert_eq!(batch, vec![10, 20, 30]);

    let sum = sum_batch(&batch);
    let (phase, action) = advance(&cfg, phase, Event::ComputeDone { sum });
    assert!(matches!(phase, Phase::Delaying { sum: 60 }));
    match action {
        Some(Action::StartDelay { delay_ms, mechanism }) => {
            assert_eq!(delay_ms, 200);
            assert_eq!(mechanism, DelayMechanism::EventTimer);
        }
        _ => panic!("expected a delay action"),
    }

    let (phase, action) = advance(&cfg, phase, Event::DelayElapsed);
    assert!(matches!(phase, Phase::Writing { status: 200, .. }));
    match action {
        Some(Action::WriteResponse { response }) => {
            assert_eq!(response.status, 200);
            assert_eq!(response.body, b"Sum: 60".to_vec());
        }
        _ => panic!("expected a write action"),
    }

    let (phase, action) = advance(&cfg, phase, Event::WriteDone);
    assert!(matches!(phase, Phase::Finished { error: None }));
    assert!(action.is_none());
}

#[test]
fn pool_strategy_places_compute_on_workers() {
    let cfg = Config::new(Strategy::PoolWaitTimer, DEFAULT_DELAY_MS, POOL_SIZE);
    let (_, action) = advance(&cfg, Phase::AwaitingBody, Event::BodyOk {
        bytes: b"[1]".to_vec(),
    });
    match action {
        Some(Action::RunCompute { on_pool, .. }) => assert!(on_pool),
        _ => panic!("expected a compute action"),
    }
}

#[test]
fn malformed_body_replies_and_records_decode_error() {
    let cfg = Config::new(Strategy::PoolSleep, DEFAULT_DELAY_MS, POOL_SIZE);
    let (phase, action) = advance(&cfg, Phase::AwaitingBody, Event::BodyOk {
        bytes: b"not json".to_vec(),
    });
    assert!(matches!(phase, Phase::Writing { status: 400, .. }));
    match action {
        Some(Action::WriteResponse { response }) => {
            assert_eq!(response.status, 400);
            assert_eq!(response.body, b"Bad Request".to_vec());
        }
        _ => panic!("expected a write action"),
    }
    let (phase, _) = advance(&cfg, phase, Event::WriteDone);
    assert!(matches!(phase, Phase::Finished { error: Some(Error::Json) }));
}

#[test]
fn failed_body_read_drops_the_connection() {
    let cfg = Config::new(Strategy::ReactorTimer, 200, POOL_SIZE);
    let (phase, action) = advance(&cfg, Phase::AwaitingBody, Event::BodyFailed);
    assert!(matches!(phase, Phase::Finished { error: Some(Error::Transport) }));
    assert!(matches!(action, Some(Action::DropConnection)));
}

#[test]
fn failed_delay_is_contained_to_one_request() {
    let cfg = Config::new(Strategy::PoolComputeTimer, DEFAULT_DELAY_MS, POOL_SIZE);
    let (phase, action) = advance(&cfg, Phase::Delaying { sum: 9 }, Event::DelayFailed);
    assert!(matches!(phase, Phase::Writing { status: 500, .. }));
    match action {
        Some(Action::WriteResponse { response }) => {
            assert_eq!(response.status, 500);
            assert_eq!(response.body, b"Timer Error".to_vec());
        }
        _ => panic!("expected a write action"),
    }
    let (phase, _) = advance(&cfg, phase, Event::WriteDone);
    assert!(matches!(phase, Phase::Finished { error: Some(Error::Timer) }));
}

#[test]
fn stray_event_changes_nothing() {
    let cfg = Config::new(Strategy::ReactorTimer, 200, POOL_SIZE);
    let (phase, action) = advance(&cfg, Phase::Computing, Event::DelayElapsed);
    assert!(matches!(phase, Phase::Computing));
    assert!(action.is_none());
}
