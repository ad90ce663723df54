use golem_worker_executor::active_workers::{ActiveWorker, ActiveWorkers};
use golem_worker_executor::ctx::{
    ComponentMetadata, DurableWorkerCtx, ExternalOperations, HookError, IndexedResourceStore, InvocationHooks,
    InvocationManagement, UpdateManagement, WorkerCtx,
};
use golem_worker_executor::fuel::{FuelError, FuelLedger, FuelManagement};
use golem_worker_executor::ids::{IdempotencyKey, WorkerId};
use golem_worker_executor::invocation::{InvocationStart, InvocationState};
use golem_worker_executor::oplog::OplogEntry;
use golem_worker_executor::public_state::{
    FileSystemDirectories, PublicState, PublicWorkerFileSystem, PublicWorkerIo, WorkerEvent,
    WorkerEventKind, WorkerEventService,
};
use golem_worker_executor::recovery::{compute_latest_worker_status, get_last_error_and_retry_count, LastError};
use golem_worker_executor::resource_index::{ResourceIndex, WorkerResourceId};
use golem_worker_executor::retry::{
    backoff_delay, decide_retry, FailReason, RetryConfig, RetryDecision, TrapType,
};
use golem_worker_executor::status::{
    is_valid_transition, ExecutionStatus, InterruptKind, StatusManagement, StatusManager,
    WorkerStatus, WorkerStatusRecord,
};

const START: i64 = 1_000_000_000;

fn config() -> RetryConfig {
    RetryConfig {
        max_attempts: 3,
        host_error_attempts: 2,
        min_delay_ms: 100,
        max_delay_ms: 1000,
        multiplier: 3,
    }
}

fn idle_record() -> WorkerStatusRecord {
    WorkerStatusRecord {
        status: WorkerStatus::Idle,
        component_version: 1,
        pending_invocations: 0,
        pending_updates: 0,
        retry_count: 0,
    }
}

fn new_ctx(oplog: Vec<OplogEntry>) -> DurableWorkerCtx {
    let public_state = PublicState {
        events: WorkerEventService::new(),
        directories: FileSystemDirectories { dir_rw: "/tmp/w/rw".to_string(), dir_ro: None },
    };
    DurableWorkerCtx::create(
        WorkerId::new("component".to_string(), "worker-1".to_string()),
        ComponentMetadata { version: 1, size: 2048 },
        oplog,
        FuelLedger::new(START, 500, 10_000),
        config(),
        idle_record(),
        public_state,
    )
}

fn params(texts: &[&str]) -> Vec<String> {
    texts.iter().map(|s| s.to_string()).collect()
}

#[test]
fn return_fuel_reports_unused_part() {
    let mut ledger = FuelLedger::new(START, 500, 10_000);
    assert!(ledger.is_out_of_fuel(START - 1));
    assert_eq!(ledger.borrow_fuel(), Ok(()));
    assert!(!ledger.is_out_of_fuel(START - 100));
    assert_eq!(ledger.return_fuel(START - 100), 400);
    assert_eq!(ledger.borrowed_total(), 500);
    assert_eq!(ledger.returned_total(), 400);
    assert_eq!(ledger.cached_limit(), 9_500);
    assert_eq!(ledger.return_fuel(START - 100), 0);
}

#[test]
fn fuel_out_of_fuel_after_consuming_borrowed_amount() {
    let mut ledger = FuelLedger::new(START, 500, 10_000);
    ledger.borrow_fuel().unwrap();
    assert!(!ledger.is_out_of_fuel(START - 500));
    assert!(ledger.is_out_of_fuel(START - 501));
    ledger.borrow_fuel().unwrap();
    assert!(!ledger.is_out_of_fuel(START - 501));
}

#[test]
fn fuel_borrow_fails_on_exhausted_limit() {
    let mut ledger = FuelLedger::new(START, 500, 0);
    assert_eq!(ledger.borrow_fuel(), Err(FuelError::LimitExhausted));
    assert_eq!(ledger.borrowed_total(), 0);
    ledger.record_limit(200);
    ledger.borrow_fuel_sync();
    assert_eq!(ledger.borrowed_total(), 200);
    assert_eq!(ledger.cached_limit(), 0);
    ledger.borrow_fuel_sync();
    assert_eq!(ledger.borrowed_total(), 200);
}

#[test]
fn fuel_overrun_returns_nothing() {
    let mut ledger = FuelLedger::new(START, 500, 10_000);
    ledger.borrow_fuel().unwrap();
    assert_eq!(ledger.return_fuel(START - 800), 0);
    assert!(ledger.returned_total() <= ledger.borrowed_total());
    let mut other = FuelLedger::new(START, 500, 10_000);
    other.borrow_fuel().unwrap();
    assert_eq!(other.return_fuel(START + 50), 500);
}

#[test]
fn backoff_grows_to_maximum() {
    let c = config();
    assert_eq!(backoff_delay(&c, 0), 100);
    assert_eq!(backoff_delay(&c, 1), 300);
    assert_eq!(backoff_delay(&c, 2), 900);
    assert_eq!(backoff_delay(&c, 3), 1000);
    assert_eq!(backoff_delay(&c, 40), 1000);
}

#[test]
fn exhaustion_retried_until_bound() {
    let c = config();
    assert_eq!(decide_retry(&c, TrapType::ResourceExhausted, 0), RetryDecision::RetryAfterDelay(100));
    assert_eq!(decide_retry(&c, TrapType::ResourceExhausted, 2), RetryDecision::RetryAfterDelay(900));
    assert_eq!(
        decide_retry(&c, TrapType::ResourceExhausted, 3),
        RetryDecision::Fail(FailReason::RetriesExhausted)
    );
}

#[test]
fn exit_never_retried() {
    let c = config();
    for count in [0u32, 1, 2, 100] {
        assert_eq!(decide_retry(&c, TrapType::Exit, count), RetryDecision::Fail(FailReason::Exited));
    }
    assert_eq!(
        decide_retry(&c, TrapType::Unrecoverable, 0),
        RetryDecision::Fail(FailReason::Unrecoverable)
    );
}

#[test]
fn host_error_retried_a_few_times() {
    let c = config();
    assert_eq!(decide_retry(&c, TrapType::HostError, 0), RetryDecision::RetryImmediately);
    assert_eq!(decide_retry(&c, TrapType::HostError, 1), RetryDecision::RetryImmediately);
    assert_eq!(
        decide_retry(&c, TrapType::HostError, 2),
        RetryDecision::Fail(FailReason::RetriesExhausted)
    );
}

#[test]
fn indexed_resource_store_and_drop() {
    let mut index = ResourceIndex::new();
    let first = params(&["\"a\"", "1"]);
    let second = params(&["\"a\"", "01"]);
    index.store_indexed_resource("stream", &first, WorkerResourceId(7));
    index.store_indexed_resource("stream", &second, WorkerResourceId(8));
    index.store_indexed_resource("file", &first, WorkerResourceId(9));
    assert_eq!(index.get_indexed_resource("stream", &first), Some(WorkerResourceId(7)));
    assert_eq!(index.get_indexed_resource("stream", &second), Some(WorkerResourceId(8)));
    assert_eq!(index.get_indexed_resource("file", &first), Some(WorkerResourceId(9)));
    assert_eq!(index.get_indexed_resource("stream", &params(&["\"a\""])), None);
    index.store_indexed_resource("stream", &first, WorkerResourceId(10));
    assert_eq!(index.get_indexed_resource("stream", &first), Some(WorkerResourceId(10)));
    index.drop_indexed_resource("stream", &first);
    assert_eq!(index.get_indexed_resource("stream", &first), None);
    assert_eq!(index.get_indexed_resource("stream", &second), Some(WorkerResourceId(8)));
    index.drop_indexed_resource("stream", &first);
    assert_eq!(index.get_indexed_resource("file", &first), Some(WorkerResourceId(9)));
}

#[test]
fn ctx_indexed_resources() {
    let mut ctx = new_ctx(vec![]);
    let p = params(&["42"]);
    assert_eq!(IndexedResourceStore::get_indexed_resource(&ctx, "counter", &p), None);
    IndexedResourceStore::store_indexed_resource(&mut ctx, "counter", &p, WorkerResourceId(1));
    assert_eq!(IndexedResourceStore::get_indexed_resource(&ctx, "counter", &p), Some(WorkerResourceId(1)));
    IndexedResourceStore::drop_indexed_resource(&mut ctx, "counter", &p);
    assert_eq!(IndexedResourceStore::get_indexed_resource(&ctx, "counter", &p), None);
}

#[test]
fn idempotency_key_runs_once() {
    let mut state = InvocationState::new();
    let k1 = IdempotencyKey::new("K1".to_string());
    assert!(matches!(state.begin_invocation(k1.duplicate()), InvocationStart::Started));
    assert!(matches!(state.begin_invocation(k1.duplicate()), InvocationStart::InProgress));
    state.complete_invocation(&vec![1, 2, 3]);
    match state.begin_invocation(k1.duplicate()) {
        InvocationStart::AlreadyCompleted(out) => assert_eq!(out, vec![1, 2, 3]),
        other => panic!("unexpected start {:?}", other),
    }
    assert!(state.current().is_none());
    let k2 = IdempotencyKey::new("K2".to_string());
    assert!(matches!(state.begin_invocation(k2), InvocationStart::Started));
    assert_eq!(state.current().unwrap().value, "K2");
}

#[test]
fn live_run_then_replay_gives_same_outputs() {
    let mut live = new_ctx(vec![]);
    assert!(live.is_live());
    live.set_current_idempotency_key(IdempotencyKey::new("K1".to_string()));
    let name = "api/run".to_string();
    let input = vec![9u8];
    assert_eq!(live.on_exported_function_invoked(&name, &input), Ok(()));
    live.record_host_response("clock/now".to_string(), vec![1, 2, 3, 4]);
    assert_eq!(live.on_invocation_success(&name, &input, 100, &vec![5, 6]), Ok(()));
    let recorded: Vec<OplogEntry> = live.log_entries().iter().map(|e| e.duplicate()).collect();
    assert_eq!(recorded.len(), 3);

    let mut replay = new_ctx(recorded);
    assert!(replay.is_replay());
    assert_eq!(replay.on_exported_function_invoked(&name, &input), Ok(()));
    assert_eq!(replay.replay_host_response(&"clock/now".to_string()), Ok(vec![1, 2, 3, 4]));
    assert_eq!(replay.on_invocation_success(&name, &input, 100, &vec![5, 6]), Ok(()));
    assert!(replay.is_live());
}

#[test]
fn replay_detects_divergence() {
    let entries = vec![OplogEntry::ExportedFunctionInvoked {
        function_name: "api/run".to_string(),
        input: vec![1],
        idempotency_key: "K".to_string(),
    }];
    let mut replay = new_ctx(entries);
    assert_eq!(
        replay.on_exported_function_invoked(&"api/other".to_string(), &vec![1]),
        Err(HookError::UnexpectedOplogEntry)
    );
    assert!(replay.is_live());
}

#[test]
fn snapshotting_suppresses_persistence() {
    let mut ctx = new_ctx(vec![]);
    ctx.begin_call_snapshotting_function();
    let name = "save-snapshot".to_string();
    assert_eq!(ctx.on_exported_function_invoked(&name, &vec![]), Ok(()));
    assert_eq!(ctx.on_invocation_success(&name, &vec![], 1, &vec![7]), Ok(()));
    assert_eq!(ctx.log_entries().len(), 0);
    ctx.end_call_snapshotting_function();
    assert_eq!(ctx.on_exported_function_invoked(&name, &vec![]), Ok(()));
    assert_eq!(ctx.log_entries().len(), 1);
}

#[test]
fn update_outcomes() {
    let mut ctx = new_ctx(vec![]);
    ctx.on_worker_update_failed(2, Some("boom".to_string()));
    assert_eq!(ctx.component_metadata(), ComponentMetadata { version: 1, size: 2048 });
    ctx.on_worker_update_succeeded(2, 4096);
    assert_eq!(ctx.component_metadata(), ComponentMetadata { version: 2, size: 4096 });
    assert_eq!(ctx.log_entries().len(), 2);
}

#[test]
fn failure_hook_is_idempotent() {
    let mut ctx = new_ctx(vec![]);
    let name = "api/run".to_string();
    ctx.on_exported_function_invoked(&name, &vec![]).unwrap();
    let d1 = ctx.on_invocation_failure(TrapType::ResourceExhausted);
    let d2 = ctx.on_invocation_failure(TrapType::ResourceExhausted);
    assert_eq!(d1, RetryDecision::RetryAfterDelay(100));
    assert_eq!(d1, d2);
    assert_eq!(ctx.log_entries().len(), 2);
}

#[test]
fn consecutive_failures_end_in_fail() {
    let name = "api/run".to_string();
    let mut decisions = vec![];
    for failures in 0..4 {
        let mut entries = vec![OplogEntry::ExportedFunctionInvoked {
            function_name: name.clone(),
            input: vec![],
            idempotency_key: "K1".to_string(),
        }];
        for _ in 0..failures {
            entries.push(OplogEntry::Error { trap: TrapType::ResourceExhausted });
        }
        let mut ctx = new_ctx(entries);
        assert_eq!(ctx.on_exported_function_invoked(&name, &vec![]), Ok(()));
        decisions.push(ctx.on_invocation_failure(TrapType::ResourceExhausted));
    }
    assert_eq!(decisions[0], RetryDecision::RetryAfterDelay(100));
    assert_eq!(decisions[1], RetryDecision::RetryAfterDelay(300));
    assert_eq!(decisions[2], RetryDecision::RetryAfterDelay(900));
    assert_eq!(decisions[3], RetryDecision::Fail(FailReason::RetriesExhausted));
}

#[test]
fn exit_trap_fails_in_context() {
    let mut ctx = new_ctx(vec![]);
    assert_eq!(ctx.on_invocation_failure(TrapType::Exit), RetryDecision::Fail(FailReason::Exited));
}

#[test]
fn last_error_and_retry_count() {
    assert_eq!(get_last_error_and_retry_count(&vec![]), None);
    let entries = vec![
        OplogEntry::ExportedFunctionInvoked {
            function_name: "f".to_string(),
            input: vec![],
            idempotency_key: "k".to_string(),
        },
        OplogEntry::Error { trap: TrapType::HostError },
        OplogEntry::ImportedFunctionInvoked { function_name: "h".to_string(), response: vec![] },
        OplogEntry::Error { trap: TrapType::ResourceExhausted },
    ];
    assert_eq!(
        get_last_error_and_retry_count(&entries),
        Some(LastError { error: TrapType::ResourceExhausted, retry_count: 1 })
    );
    let mut done = entries;
    done.push(OplogEntry::ExportedFunctionCompleted { output: vec![], consumed_fuel: 3 });
    assert_eq!(get_last_error_and_retry_count(&done), None);
}

#[test]
fn latest_status_from_log() {
    let c = config();
    let entries = vec![
        OplogEntry::ExportedFunctionInvoked {
            function_name: "f".to_string(),
            input: vec![],
            idempotency_key: "k".to_string(),
        },
        OplogEntry::PendingUpdate { target_version: 2 },
        OplogEntry::SuccessfulUpdate { target_version: 2, new_component_size: 10 },
        OplogEntry::Error { trap: TrapType::HostError },
    ];
    let s = compute_latest_worker_status(&c, None, &entries);
    assert_eq!(s.status, WorkerStatus::Retrying);
    assert_eq!(s.component_version, 2);
    assert_eq!(s.pending_updates, 0);
    assert_eq!(s.retry_count, 1);
    let mut more = entries;
    more.push(OplogEntry::Error { trap: TrapType::HostError });
    let s = compute_latest_worker_status(&c, None, &more);
    assert_eq!(s.status, WorkerStatus::Retrying);
    more.push(OplogEntry::Error { trap: TrapType::HostError });
    let s = compute_latest_worker_status(&c, None, &more);
    assert_eq!(s.status, WorkerStatus::Failed);
    let s = compute_latest_worker_status(&c, Some(idle_record()), &vec![OplogEntry::Exited]);
    assert_eq!(s.status, WorkerStatus::Exited);
    assert_eq!(s.component_version, 1);
}

#[test]
fn status_transitions_and_interrupts() {
    let mut m = StatusManager::new(idle_record());
    assert_eq!(m.check_interrupt(), None);
    m.set_running();
    assert_eq!(m.execution, ExecutionStatus::Running);
    m.store_worker_status(WorkerStatus::Running);
    assert_eq!(m.get_worker_status(), WorkerStatus::Running);
    m.store_worker_status(WorkerStatus::Retrying);
    assert_eq!(m.get_worker_status(), WorkerStatus::Running);
    m.interrupt(InterruptKind::Suspend);
    assert_eq!(m.check_interrupt(), Some(InterruptKind::Suspend));
    m.set_running();
    assert_eq!(m.check_interrupt(), Some(InterruptKind::Suspend));
    m.complete_interrupt();
    assert_eq!(m.execution, ExecutionStatus::Interrupted(InterruptKind::Suspend));
    m.update_pending_invocations(3);
    m.update_pending_updates(1);
    assert_eq!(m.record.pending_invocations, 3);
    assert_eq!(m.record.pending_updates, 1);
    assert!(is_valid_transition(WorkerStatus::Failed, WorkerStatus::Retrying));
    assert!(!is_valid_transition(WorkerStatus::Exited, WorkerStatus::Running));
}

#[test]
fn shard_reassignment_suspends_and_deregisters() {
    let mut active = ActiveWorkers::new();
    let w = WorkerId::new("c".to_string(), "W".to_string());
    assert!(active.register(ActiveWorker { worker_id: w.duplicate(), shard: 4, status: WorkerStatus::Running }));
    assert!(active.register(ActiveWorker {
        worker_id: WorkerId::new("c".to_string(), "V".to_string()),
        shard: 1,
        status: WorkerStatus::Running,
    }));
    assert!(!active.register(ActiveWorker { worker_id: w.duplicate(), shard: 4, status: WorkerStatus::Idle }));
    let released = active.on_shard_assignment_changed(&[1, 2]);
    assert_eq!(released.len(), 1);
    assert_eq!(released[0].worker_id.worker_name, "W");
    assert_eq!(released[0].status, WorkerStatus::Suspended);
    assert!(!active.contains(&w));
    assert_eq!(active.len(), 1);
    active.on_worker_deleted(&WorkerId::new("c".to_string(), "V".to_string()));
    assert_eq!(active.len(), 0);
}

#[test]
fn public_state_exposes_events_and_directories() {
    let mut ctx = new_ctx(vec![]);
    let dirs = ctx.get_public_state().directories();
    assert_eq!(dirs.dir_rw, "/tmp/w/rw");
    assert!(dirs.dir_ro.is_none());
    assert_eq!(ctx.get_public_state().event_service().len(), 0);
    assert_eq!(ctx.worker_id().worker_name, "worker-1");
    ctx.emit_event(WorkerEvent { kind: WorkerEventKind::StdOut, payload: b"hi".to_vec() });
    let events = ctx.get_public_state().event_service().events_from(0);
    assert_eq!(events.len(), 1);
    assert_eq!(events[0].payload, b"hi".to_vec());
    assert_eq!(ctx.get_public_state().event_service().events_from(1).len(), 0);
    assert_eq!(ctx.get_public_state().event_service().events_from(5).len(), 0);
}

#[test]
fn ctx_idempotent_invocation() {
    let mut ctx = new_ctx(vec![]);
    let k = IdempotencyKey::new("K1".to_string());
    assert!(matches!(ctx.begin_invocation(k.duplicate()), InvocationStart::Started));
    assert_eq!(ctx.get_current_idempotency_key().unwrap().value, "K1");
    assert!(matches!(ctx.begin_invocation(k.duplicate()), InvocationStart::InProgress));
    let name = "api/add".to_string();
    ctx.on_exported_function_invoked(&name, &vec![1]).unwrap();
    ctx.on_invocation_success(&name, &vec![1], 100, &vec![4, 2]).unwrap();
    assert!(ctx.get_current_idempotency_key().is_none());
    match ctx.begin_invocation(k) {
        InvocationStart::AlreadyCompleted(out) => assert_eq!(out, vec![4, 2]),
        other => panic!("unexpected start {:?}", other),
    }
    assert_eq!(ctx.return_fuel(START - 100), 0);
}

#[test]
fn external_operations_without_a_running_worker() {
    let entries = vec![OplogEntry::Error { trap: TrapType::HostError }];
    assert_eq!(
        DurableWorkerCtx::get_last_error_and_retry_count(&entries),
        Some(LastError { error: TrapType::HostError, retry_count: 0 })
    );
    let s = DurableWorkerCtx::compute_latest_worker_status(&config(), None, &entries);
    assert_eq!(s.status, WorkerStatus::Retrying);
    let mut ledger = FuelLedger::new(START, 500, 0);
    DurableWorkerCtx::record_last_known_limits(&mut ledger, 300);
    assert_eq!(ledger.cached_limit(), 300);
    let mut active = ActiveWorkers::new();
    let w = WorkerId::new("c".to_string(), "W".to_string());
    active.register(ActiveWorker { worker_id: w.duplicate(), shard: 2, status: WorkerStatus::Idle });
    let released = DurableWorkerCtx::on_shard_assignment_changed(&mut active, &[3]);
    assert_eq!(released.len(), 1);
    assert_eq!(released[0].status, WorkerStatus::Idle);
    active.register(ActiveWorker { worker_id: w.duplicate(), shard: 3, status: WorkerStatus::Running });
    DurableWorkerCtx::on_worker_deleted(&mut active, &w);
    assert_eq!(active.len(), 0);
}
