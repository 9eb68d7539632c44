use deadpool_tiberius::{
    create_outcome, recycle_next, wait_budget, AcquireStep, AttemptOutcome, ConnectStep,
    Connector, CreateOutcome, Endpoint, HookKind, HookPhase, HookRecord, HookVerdict, Hooks,
    Lease, PhaseRun, PhaseStep, PoolError, PoolSettings, PoolState, RecycleCheck, RecycleStage,
    SlotState,
    WaitBudget, DEFAULT_MAX_SIZE,
};

fn endpoint(host: &str, port: u16) -> Endpoint {
    Endpoint { host: host.to_string(), port }
}

fn create_slot(pool: &mut PoolState) -> usize {
    match pool.acquire() {
        AcquireStep::Create(i) => i,
        other => panic!("expected a creation, got {:?}", other),
    }
}

fn lease_new(pool: &mut PoolState) -> Lease {
    let slot = create_slot(pool);
    match pool.finish_create(slot, CreateOutcome::Created, true) {
        Ok(Some(lease)) => lease,
        other => panic!("expected a lease, got {:?}", other),
    }
}

#[test]
fn new_pool_is_free() {
    let pool = PoolState::new(3);
    let m = pool.metrics();
    assert_eq!(m.capacity, 3);
    assert_eq!((m.idle, m.leased, m.in_flight), (0, 0, 0));
    assert_eq!((m.created, m.recycled, m.discarded), (0, 0, 0));
    assert!(pool.is_drained());
    assert!(!pool.is_shut_down());
    assert_eq!(pool.slot_state(2), Some(SlotState::Free));
    assert_eq!(pool.slot_state(3), None);
}

#[test]
fn acquire_creates_then_reuses_idle() {
    let mut pool = PoolState::new(2);
    let lease = lease_new(&mut pool);
    assert_eq!(lease.slot(), 0);
    assert_eq!(pool.release(lease), Ok(0));
    assert_eq!(pool.slot_state(0), Some(SlotState::Recycling));
    assert_eq!(pool.finish_recycle(0, RecycleCheck::Passed), Ok(()));
    assert_eq!(pool.slot_state(0), Some(SlotState::Idle));
    match pool.acquire() {
        AcquireStep::Granted(l) => assert_eq!(l.slot(), 0),
        other => panic!("expected the idle slot, got {:?}", other),
    }
    let m = pool.metrics();
    assert_eq!((m.created, m.recycled, m.discarded), (1, 1, 0));
    assert_eq!(m.leased, 1);
}

#[test]
fn in_use_never_exceeds_capacity() {
    let mut pool = PoolState::new(2);
    let _a = lease_new(&mut pool);
    let b = create_slot(&mut pool);
    assert_eq!(b, 1);
    assert!(matches!(pool.acquire(), AcquireStep::Wait));
    let m = pool.metrics();
    assert_eq!(m.idle + m.leased + m.in_flight, 2);
    assert!(m.idle + m.leased + m.in_flight <= m.capacity);
}

#[test]
fn zero_capacity_always_waits() {
    let mut pool = PoolState::new(0);
    assert!(matches!(pool.acquire(), AcquireStep::Wait));
    assert!(pool.is_drained());
}

#[test]
fn release_always_resolves() {
    let mut pool = PoolState::new(2);
    let a = lease_new(&mut pool);
    let b = lease_new(&mut pool);
    let sa = pool.release(a).unwrap();
    let sb = pool.release(b).unwrap();
    assert_eq!(pool.finish_recycle(sa, RecycleCheck::Passed), Ok(()));
    assert_eq!(pool.finish_recycle(sb, RecycleCheck::Invalid), Err(PoolError::ValidationFailed));
    assert_eq!(pool.slot_state(sa), Some(SlotState::Idle));
    assert_eq!(pool.slot_state(sb), Some(SlotState::Free));
    let m = pool.metrics();
    assert_eq!(m.in_flight, 0);
    assert_eq!((m.recycled, m.discarded), (1, 1));
}

#[test]
fn stale_operations_are_refused() {
    let mut pool = PoolState::new(1);
    assert_eq!(pool.finish_recycle(0, RecycleCheck::Passed), Err(PoolError::StaleLease));
    assert_eq!(pool.finish_create(0, CreateOutcome::Created, true).err(), Some(PoolError::StaleLease));
    assert_eq!(pool.finish_create(7, CreateOutcome::Created, true).err(), Some(PoolError::StaleLease));
    let lease = lease_new(&mut pool);
    assert_eq!(pool.release(lease), Ok(0));
    let again = lease_new_or_idle(&mut pool);
    assert!(again.is_none());
}

fn lease_new_or_idle(pool: &mut PoolState) -> Option<Lease> {
    match pool.acquire() {
        AcquireStep::Granted(l) => Some(l),
        _ => None,
    }
}

#[test]
fn shutdown_twice_same_as_once() {
    let mut pool = PoolState::new(3);
    let a = lease_new(&mut pool);
    let b = lease_new(&mut pool);
    let sb = pool.release(b).unwrap();
    pool.finish_recycle(sb, RecycleCheck::Passed).unwrap();
    let first = pool.shutdown();
    assert_eq!(first, vec![1]);
    let m1 = pool.metrics();
    let second = pool.shutdown();
    assert!(second.is_empty());
    let m2 = pool.metrics();
    assert_eq!(m1, m2);
    assert_eq!(m1.discarded, 1);
    assert!(matches!(pool.acquire(), AcquireStep::Refused(PoolError::PoolShutdown)));
    assert!(!pool.is_drained());
    let sa = pool.release(a).unwrap();
    assert_eq!(pool.finish_recycle(sa, RecycleCheck::Passed), Err(PoolError::PoolShutdown));
    assert!(pool.is_drained());
}

#[test]
fn creation_finishing_after_shutdown_is_discarded() {
    let mut pool = PoolState::new(1);
    let slot = create_slot(&mut pool);
    pool.shutdown();
    assert_eq!(pool.finish_create(slot, CreateOutcome::Created, true).err(), Some(PoolError::PoolShutdown));
    let m = pool.metrics();
    assert_eq!((m.created, m.discarded), (1, 1));
    assert!(pool.is_drained());
}

#[test]
fn creation_for_a_departed_waiter_stays_idle() {
    let mut pool = PoolState::new(1);
    let slot = create_slot(&mut pool);
    assert!(matches!(pool.finish_create(slot, CreateOutcome::Created, false), Ok(None)));
    assert_eq!(pool.slot_state(slot), Some(SlotState::Idle));
    assert!(matches!(pool.acquire(), AcquireStep::Granted(_)));
}

#[test]
fn post_create_rejection_frees_the_slot() {
    let mut pool = PoolState::new(1);
    let slot = create_slot(&mut pool);
    let outcome = create_outcome(Ok(()), HookVerdict::Reject);
    assert_eq!(outcome, CreateOutcome::Rejected);
    assert_eq!(pool.finish_create(slot, outcome, true).err(), Some(PoolError::HookRejected));
    let m = pool.metrics();
    assert_eq!((m.created, m.discarded), (1, 1));
    assert_eq!(create_slot(&mut pool), 0);
}

#[test]
fn timeout_after_one_second_with_single_slot() {
    let mut pool = PoolState::new(1);
    let settings = PoolSettings::new().max_size(1).wait_timeout(1000);
    let _first = lease_new(&mut pool);
    assert!(matches!(pool.acquire(), AcquireStep::Wait));
    let timeout = settings.wait_timeout_ms;
    assert_eq!(wait_budget(timeout, 5_000, 5_100), WaitBudget::Remaining(900));
    assert_eq!(wait_budget(timeout, 5_000, 5_999), WaitBudget::Remaining(1));
    assert_eq!(wait_budget(timeout, 5_000, 6_000), WaitBudget::Expired);
    assert_eq!(wait_budget(timeout, 5_000, 6_100), WaitBudget::Expired);
    assert!(matches!(pool.acquire(), AcquireStep::Wait));
}

#[test]
fn wait_budget_edges() {
    assert_eq!(wait_budget(None, 10, 1_000_000), WaitBudget::Unbounded);
    assert_eq!(wait_budget(Some(0), 10, 10), WaitBudget::Expired);
    assert_eq!(wait_budget(Some(50), 100, 40), WaitBudget::Remaining(50));
    assert_eq!(wait_budget(Some(u64::MAX), 0, u64::MAX), WaitBudget::Expired);
}

#[test]
fn failing_validation_discards_every_cycle() {
    let mut pool = PoolState::new(5);
    for _ in 0..5 {
        let lease = lease_new(&mut pool);
        let slot = pool.release(lease).unwrap();
        assert_eq!(pool.finish_recycle(slot, RecycleCheck::Invalid), Err(PoolError::ValidationFailed));
    }
    let m = pool.metrics();
    assert_eq!(m.discarded, 5);
    assert!(m.created >= 5);
    assert_eq!(m.created, 5);
    let mut leases = Vec::new();
    for _ in 0..5 {
        leases.push(lease_new(&mut pool));
    }
    assert_eq!(pool.metrics().leased, 5);
    assert!(matches!(pool.acquire(), AcquireStep::Wait));
}

#[test]
fn failing_tuner_fails_creation_and_returns_capacity() {
    let mut pool = PoolState::new(1);
    let slot = create_slot(&mut pool);
    let mut c = Connector::new();
    let step = c.on_outcome(AttemptOutcome::TunerFailed);
    assert_eq!(step, ConnectStep::Failed(PoolError::CreationFailed));
    let outcome = create_outcome(Err(PoolError::CreationFailed), HookVerdict::Continue);
    assert_eq!(pool.finish_create(slot, outcome, true).err(), Some(PoolError::CreationFailed));
    assert_eq!(pool.slot_state(slot), Some(SlotState::Free));

    let slot = create_slot(&mut pool);
    let mut c = Connector::new();
    assert_eq!(c.on_outcome(AttemptOutcome::Connected), ConnectStep::Done);
    let outcome = create_outcome(Ok(()), HookVerdict::Continue);
    assert!(matches!(pool.finish_create(slot, outcome, true), Ok(Some(_))));
    assert_eq!(pool.metrics().created, 1);
}

#[test]
fn always_redirecting_endpoint_makes_two_attempts() {
    let mut c = Connector::new();
    assert_eq!(c.attempt_count(), 1);
    let step = c.on_outcome(AttemptOutcome::Redirected(endpoint("replica", 11000)));
    assert_eq!(step, ConnectStep::Attempt(endpoint("replica", 11000)));
    assert_eq!(c.attempt_count(), 2);
    assert!(!c.is_finished());
    let step = c.on_outcome(AttemptOutcome::Redirected(endpoint("other", 11001)));
    assert_eq!(step, ConnectStep::Failed(PoolError::RedirectFailed));
    assert_eq!(c.attempt_count(), 2);
    assert!(c.is_finished());
}

#[test]
fn redirected_attempt_outcomes() {
    let mut c = Connector::new();
    c.on_outcome(AttemptOutcome::Redirected(endpoint("b", 2)));
    assert_eq!(c.on_outcome(AttemptOutcome::Connected), ConnectStep::Done);

    let mut c = Connector::new();
    c.on_outcome(AttemptOutcome::Redirected(endpoint("b", 2)));
    assert_eq!(c.on_outcome(AttemptOutcome::TunerFailed), ConnectStep::Failed(PoolError::RedirectFailed));

    let mut c = Connector::new();
    assert_eq!(c.on_outcome(AttemptOutcome::HandshakeFailed), ConnectStep::Failed(PoolError::CreationFailed));
    let mut c = Connector::new();
    assert_eq!(c.on_outcome(AttemptOutcome::TransportFailed), ConnectStep::Failed(PoolError::CreationFailed));
}

fn run_phase(hooks: &Hooks, phase: HookPhase, verdicts: &[(usize, HookVerdict)]) -> (Vec<usize>, HookVerdict) {
    let mut run = PhaseRun::start(hooks, phase);
    let mut called = Vec::new();
    loop {
        match run.step() {
            PhaseStep::Call(id) => {
                called.push(id);
                let v = verdicts.iter().find(|(h, _)| *h == id).map(|(_, v)| *v).unwrap_or(HookVerdict::Continue);
                run.report(v);
            },
            PhaseStep::Finished(v) => return (called, v),
        }
    }
}

#[test]
fn rejecting_hook_stops_the_phase() {
    let mut hooks = Hooks::new();
    let a = hooks.register(HookPhase::PreRecycle, HookKind::Sync);
    let b = hooks.register(HookPhase::PreRecycle, HookKind::Async);
    let c = hooks.register(HookPhase::PreRecycle, HookKind::Sync);
    assert_eq!((a, b, c), (0, 1, 2));
    let (called, result) = run_phase(&hooks, HookPhase::PreRecycle, &[(b, HookVerdict::Reject)]);
    assert_eq!(called, vec![a, b]);
    assert_eq!(result, HookVerdict::Reject);
}

#[test]
fn hooks_run_in_registration_order_per_phase() {
    let mut hooks = Hooks::default();
    assert_eq!(hooks.len(), 0);
    hooks.register(HookPhase::PostCreate, HookKind::Sync);
    hooks.register(HookPhase::PreRecycle, HookKind::Sync);
    hooks.register(HookPhase::PostCreate, HookKind::Async);
    hooks.register(HookPhase::PostRecycle, HookKind::Sync);
    assert_eq!(hooks.phase_hooks(HookPhase::PostCreate), vec![0, 2]);
    assert_eq!(hooks.phase_hooks(HookPhase::PreRecycle), vec![1]);
    assert_eq!(hooks.phase_hooks(HookPhase::PostRecycle), vec![3]);
    assert_eq!(hooks.record(2), Some(HookRecord { phase: HookPhase::PostCreate, kind: HookKind::Async }));
    assert_eq!(hooks.record(4), None);
    let (called, result) = run_phase(&hooks, HookPhase::PostCreate, &[]);
    assert_eq!(called, vec![0, 2]);
    assert_eq!(result, HookVerdict::Continue);
}

#[test]
fn empty_phase_continues() {
    let hooks = Hooks::new();
    let run = PhaseRun::start(&hooks, HookPhase::PostRecycle);
    assert_eq!(run.step(), PhaseStep::Finished(HookVerdict::Continue));
}

#[test]
fn recycle_stages_stop_at_first_failure() {
    assert_eq!(recycle_next(RecycleStage::PreRecycle, true), RecycleStage::Validate);
    assert_eq!(recycle_next(RecycleStage::PreRecycle, false), RecycleStage::Done(RecycleCheck::Rejected));
    assert_eq!(recycle_next(RecycleStage::Validate, true), RecycleStage::PostRecycle);
    assert_eq!(recycle_next(RecycleStage::Validate, false), RecycleStage::Done(RecycleCheck::Invalid));
    assert_eq!(recycle_next(RecycleStage::PostRecycle, true), RecycleStage::Done(RecycleCheck::Passed));
    assert_eq!(recycle_next(RecycleStage::PostRecycle, false), RecycleStage::Done(RecycleCheck::Rejected));
    assert_eq!(recycle_next(RecycleStage::Done(RecycleCheck::Passed), false), RecycleStage::Done(RecycleCheck::Passed));
}

#[test]
fn create_outcome_combinations() {
    assert_eq!(create_outcome(Ok(()), HookVerdict::Continue), CreateOutcome::Created);
    assert_eq!(create_outcome(Ok(()), HookVerdict::Reject), CreateOutcome::Rejected);
    assert_eq!(create_outcome(Err(PoolError::RedirectFailed), HookVerdict::Reject),
        CreateOutcome::Failed(PoolError::RedirectFailed));
}

#[test]
fn settings_builder() {
    let s = PoolSettings::default();
    assert_eq!(s.max_size, DEFAULT_MAX_SIZE);
    assert_eq!(s.max_size, 10);
    assert!(!s.timer_runtime);
    let s = s.max_size(20).wait_timeout(1520);
    assert_eq!(s.max_size, 20);
    assert_eq!(s.wait_timeout_ms, Some(1520));
    assert!(s.timer_runtime);
    let s = PoolSettings::new().create_timeout(5).recycle_timeout(7);
    assert_eq!((s.create_timeout_ms, s.recycle_timeout_ms, s.wait_timeout_ms), (Some(5), Some(7), None));
    assert!(s.timer_runtime);
    let pool = s.max_size(4).build();
    assert_eq!(pool.metrics().capacity, 4);
}

#[test]
fn rejected_recycle_is_discarded_with_hook_error() {
    let mut pool = PoolState::new(1);
    let lease = lease_new(&mut pool);
    let slot = pool.release(lease).unwrap();
    assert_eq!(pool.finish_recycle(slot, RecycleCheck::Rejected), Err(PoolError::HookRejected));
    let m = pool.metrics();
    assert_eq!((m.recycled, m.discarded, m.idle), (0, 1, 0));
    assert!(pool.is_drained());
}

#[test]
fn double_release_is_stale() {
    let mut pool = PoolState::new(1);
    let lease = lease_new(&mut pool);
    let slot = pool.release(lease).unwrap();
    assert_eq!(pool.finish_recycle(slot, RecycleCheck::Passed), Ok(()));
    assert_eq!(pool.finish_recycle(slot, RecycleCheck::Passed), Err(PoolError::StaleLease));
    assert_eq!(pool.metrics().recycled, 1);
}

#[test]
fn creation_timeout_frees_the_slot() {
    let mut pool = PoolState::new(1);
    let slot = create_slot(&mut pool);
    let outcome = create_outcome(Err(PoolError::Timeout), HookVerdict::Continue);
    assert_eq!(pool.finish_create(slot, outcome, true).err(), Some(PoolError::Timeout));
    let m = pool.metrics();
    assert_eq!((m.created, m.discarded, m.in_flight), (0, 0, 0));
    assert_eq!(create_slot(&mut pool), 0);
}
