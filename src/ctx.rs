use vstd::prelude::*;
use crate::fuel::{FuelError, FuelLedger, FuelManagement, FuelModel};
use crate::ids::{IdempotencyKey, WorkerId};
use crate::invocation::{InvocationModel, InvocationStart, InvocationState, opt_key_view};
use crate::oplog::{DurableLog, LogModel, LogRecord, OplogEntry, opt_str_view, records_of};
use crate::public_state::{PublicState, WorkerEvent};
use crate::active_workers::{ActiveWorker, ActiveWorkers, kept, released, without};
use crate::recovery::{
    LastError, compute_latest_worker_status, get_last_error_and_retry_count, initial_record,
    last_error, status_after, trailing_errors,
};
use crate::resource_index::{ResourceIndex, ResourceKey, WorkerResourceId, resource_key};
use crate::retry::{RetryConfig, RetryDecision, TrapType, decide_retry, retry_decision};
use crate::status::{
    ExecutionStatus, InterruptKind, StatusManagement, StatusManager, WorkerStatus,
    WorkerStatusRecord,
};

verus! {

/// The component that a worker runs: its version and the size of its binary.
#[derive(Debug, Clone, Copy, PartialEq, Eq, Structural)]
pub struct ComponentMetadata {
    pub version: u64,
    pub size: u64,
}

/// Why a hook refused an invocation during replay.
#[derive(Debug, Clone, Copy, PartialEq, Eq, Structural)]
pub enum HookError {
    /// The log holds something else at this point than what the worker does now.
    UnexpectedOplogEntry,
}

/// The text of the current key, or nothing.
pub open spec fn key_text(current: Option<Seq<char>>) -> Seq<char> {
    match current {
        Some(k) => k,
        None => Seq::empty(),
    }
}

/// How many failures came right before the next one, as the retry policy counts them.
pub open spec fn prior_failures(rs: Seq<LogRecord>) -> nat {
    if trailing_errors(rs) <= u32::MAX {
        trailing_errors(rs)
    } else {
        u32::MAX as nat
    }
}

/// Whether the record is the invocation of this function with this input.
pub open spec fn holds_invocation(r: Option<LogRecord>, name: Seq<char>, input: Seq<u8>) -> bool {
    match r {
        Some(LogRecord::ExportedFunctionInvoked { function_name, input: i, .. }) => function_name
            == name && i == input,
        _ => false,
    }
}

/// Whether the record is a completion with this output.
pub open spec fn holds_output(r: Option<LogRecord>, output: Seq<u8>) -> bool {
    match r {
        Some(LogRecord::ExportedFunctionCompleted { output: o, .. }) => o == output,
        _ => false,
    }
}

/// Whether the record is a response of this host function.
pub open spec fn holds_host_call(r: Option<LogRecord>, name: Seq<char>) -> bool {
    match r {
        Some(LogRecord::ImportedFunctionInvoked { function_name, .. }) => function_name == name,
        _ => false,
    }
}

pub open spec fn persisted_if_live(m: LogModel, r: LogRecord) -> LogModel {
    if m.live() {
        m.persisted(r)
    } else {
        m
    }
}

/// Which invocation runs, and whether it runs live or replays the log.
pub trait InvocationManagement {
    spec fn invocation_model(&self) -> InvocationModel;

    spec fn live(&self) -> bool;

    /// Makes the key the current one; a worker runs one invocation at a time.
    fn set_current_idempotency_key(&mut self, key: IdempotencyKey)
        ensures
            final(self).invocation_model() == (InvocationModel {
                current: Some(key.view()),
                ..old(self).invocation_model()
            }),
            final(self).live() == old(self).live(),
    ;

    fn get_current_idempotency_key(&self) -> (r: Option<IdempotencyKey>)
        ensures
            opt_key_view(r) == self.invocation_model().current,
    ;

    fn is_live(&self) -> (r: bool)
        ensures
            r == self.live(),
    ;

    fn is_replay(&self) -> (r: bool)
        ensures
            r == !self.live(),
    ;
}

/// Hooks around each invocation of an exported function.
pub trait InvocationHooks {
    spec fn hooks_ready(&self) -> bool;

    spec fn hook_log(&self) -> LogModel;

    spec fn hook_invocations(&self) -> InvocationModel;

    spec fn retry_config(&self) -> RetryConfig;

    /// The decision already taken for the failure of the current attempt.
    spec fn pending_failure(&self) -> Option<RetryDecision>;

    /// Records the call before it runs; during replay, checks that the log holds this call.
    fn on_exported_function_invoked(
        &mut self,
        full_function_name: &String,
        function_input: &Vec<u8>,
    ) -> (r: Result<(), HookError>)
        requires
            old(self).hooks_ready(),
        ensures
            final(self).hooks_ready(),
            final(self).retry_config() == old(self).retry_config(),
            final(self).hook_invocations() == old(self).hook_invocations(),
            final(self).pending_failure() is None,
            old(self).hook_log().live() ==> r is Ok && final(self).hook_log() == old(self).hook_log().persisted(
                LogRecord::ExportedFunctionInvoked {
                    function_name: full_function_name@,
                    input: function_input@,
                    idempotency_key: key_text(old(self).hook_invocations().current),
                },
            ),
            !old(self).hook_log().live() ==> final(self).hook_log() == old(self).hook_log().replayed() && (r is Ok <==> holds_invocation(
                old(self).hook_log().next_record(),
                full_function_name@,
                function_input@,
            )),
    ;

    /// Classifies a failure of the current attempt. A second call for the same failure
    /// returns the same decision and records nothing more.
    fn on_invocation_failure(&mut self, trap_type: TrapType) -> (r: RetryDecision)
        requires
            old(self).hooks_ready(),
        ensures
            final(self).hooks_ready(),
            final(self).retry_config() == old(self).retry_config(),
            final(self).hook_invocations() == old(self).hook_invocations(),
            final(self).pending_failure() == Some(r),
            old(self).pending_failure() is Some ==> r == old(self).pending_failure()->0 && final(self).hook_log() == old(self).hook_log(),
            old(self).pending_failure() is None ==> r == retry_decision(
                old(self).retry_config(),
                trap_type,
                prior_failures(old(self).hook_log().records),
            ) && final(self).hook_log() == persisted_if_live(
                old(self).hook_log(),
                LogRecord::Error { trap: trap_type },
            ),
    ;

    /// Records the output of a successful call; during replay, checks that the log holds
    /// this very output.
    fn on_invocation_success(
        &mut self,
        full_function_name: &String,
        function_input: &Vec<u8>,
        consumed_fuel: i64,
        output: &Vec<u8>,
    ) -> (r: Result<(), HookError>)
        requires
            old(self).hooks_ready(),
        ensures
            final(self).hooks_ready(),
            final(self).retry_config() == old(self).retry_config(),
            final(self).pending_failure() is None,
            old(self).hook_log().live() ==> r is Ok && final(self).hook_log() == old(self).hook_log().persisted(
                LogRecord::ExportedFunctionCompleted { output: output@, consumed_fuel },
            ),
            !old(self).hook_log().live() ==> final(self).hook_log() == old(self).hook_log().replayed() && (r is Ok <==> holds_output(old(self).hook_log().next_record(), output@)),
            r is Ok ==> final(self).hook_invocations() == old(self).hook_invocations().after_complete(
                output@,
            ),
            r is Err ==> final(self).hook_invocations() == old(self).hook_invocations(),
    ;
}

/// Live migration of a worker to another component version.
pub trait UpdateManagement {
    spec fn update_ready(&self) -> bool;

    spec fn update_log(&self) -> LogModel;

    spec fn metadata(&self) -> ComponentMetadata;

    /// Persistence stops until the matching end.
    fn begin_call_snapshotting_function(&mut self)
        requires
            old(self).update_ready(),
        ensures
            final(self).update_ready(),
            final(self).update_log() == old(self).update_log().begin_snapshot(),
            final(self).metadata() == old(self).metadata(),
    ;

    /// Persistence resumes.
    fn end_call_snapshotting_function(&mut self)
        requires
            old(self).update_ready(),
        ensures
            final(self).update_ready(),
            final(self).update_log() == old(self).update_log().end_snapshot(),
            final(self).metadata() == old(self).metadata(),
    ;

    /// The worker stays at its version; the failure is recorded.
    fn on_worker_update_failed(&mut self, target_version: u64, details: Option<String>)
        requires
            old(self).update_ready(),
        ensures
            final(self).update_ready(),
            final(self).metadata() == old(self).metadata(),
            final(self).update_log() == persisted_if_live(
                old(self).update_log(),
                LogRecord::FailedUpdate { target_version, details: opt_str_view(details) },
            ),
    ;

    /// The worker now runs the target version.
    fn on_worker_update_succeeded(&mut self, target_version: u64, new_component_size: u64)
        requires
            old(self).update_ready(),
        ensures
            final(self).update_ready(),
            final(self).metadata() == (ComponentMetadata {
                version: target_version,
                size: new_component_size,
            }),
            final(self).update_log() == persisted_if_live(
                old(self).update_log(),
                LogRecord::SuccessfulUpdate { target_version, new_component_size },
            ),
    ;
}

/// Resources of a worker indexed by their constructor parameters' exact text.
pub trait IndexedResourceStore {
    spec fn resources_ready(&self) -> bool;

    spec fn resource_view(&self) -> Map<ResourceKey, WorkerResourceId>;

    fn get_indexed_resource(&self, resource_name: &str, resource_params: &[String]) -> (r:
        Option<WorkerResourceId>)
        requires
            self.resources_ready(),
        ensures
            r == (if self.resource_view().contains_key(resource_key(resource_name@, resource_params@)) {
                Some(self.resource_view()[resource_key(resource_name@, resource_params@)])
            } else {
                None
            }),
    ;

    fn store_indexed_resource(
        &mut self,
        resource_name: &str,
        resource_params: &[String],
        resource: WorkerResourceId,
    )
        requires
            old(self).resources_ready(),
        ensures
            final(self).resources_ready(),
            final(self).resource_view() == old(self).resource_view().insert(
                resource_key(resource_name@, resource_params@),
                resource,
            ),
    ;

    fn drop_indexed_resource(&mut self, resource_name: &str, resource_params: &[String])
        requires
            old(self).resources_ready(),
        ensures
            final(self).resources_ready(),
            final(self).resource_view() == old(self).resource_view().remove(
                resource_key(resource_name@, resource_params@),
            ),
    ;
}

/// Operations on a worker that need no running context of it.
pub trait ExternalOperations {
    /// The newest failure at the end of a worker's log and how often it was retried.
    fn get_last_error_and_retry_count(entries: &Vec<OplogEntry>) -> (r: Option<LastError>)
        ensures
            r == last_error(records_of(entries@)),
    ;

    /// A best-effort status of a worker computed from its persisted log alone.
    fn compute_latest_worker_status(
        config: &RetryConfig,
        known: Option<WorkerStatusRecord>,
        entries: &Vec<OplogEntry>,
    ) -> (r: WorkerStatusRecord)
        ensures
            r == status_after(*config, initial_record(known), records_of(entries@)),
    ;

    /// Keeps the limit that the account's limiter reported last, for borrowing without it.
    fn record_last_known_limits(fuel: &mut FuelLedger, limit: u64)
        requires
            old(fuel).model().wf(),
        ensures
            final(fuel).model() == old(fuel).model().with_limit(limit as int),
            final(fuel).model().wf(),
    ;

    /// Forgets a deleted worker.
    fn on_worker_deleted(active: &mut ActiveWorkers, worker_id: &WorkerId)
        ensures
            final(active).view() == without(old(active).view(), worker_id.view()),
    ;

    /// Keeps the workers whose shard this executor still owns and hands off the others.
    fn on_shard_assignment_changed(active: &mut ActiveWorkers, assigned: &[u64]) -> (r: Vec<
        ActiveWorker,
    >)
        ensures
            final(active).view() == kept(old(active).view(), assigned@),
            r@ == released(old(active).view(), assigned@),
    ;
}

impl ExternalOperations for DurableWorkerCtx {
    fn get_last_error_and_retry_count(entries: &Vec<OplogEntry>) -> (r: Option<LastError>) {
        get_last_error_and_retry_count(entries)
    }

    fn compute_latest_worker_status(
        config: &RetryConfig,
        known: Option<WorkerStatusRecord>,
        entries: &Vec<OplogEntry>,
    ) -> (r: WorkerStatusRecord) {
        compute_latest_worker_status(config, known, entries)
    }

    fn record_last_known_limits(fuel: &mut FuelLedger, limit: u64) {
        fuel.record_limit(limit);
    }

    fn on_worker_deleted(active: &mut ActiveWorkers, worker_id: &WorkerId) {
        active.on_worker_deleted(worker_id);
    }

    fn on_shard_assignment_changed(active: &mut ActiveWorkers, assigned: &[u64]) -> (r: Vec<
        ActiveWorker,
    >) {
        active.on_shard_assignment_changed(assigned)
    }
}

/// Everything the executor needs of a worker's context.
pub trait WorkerCtx: FuelManagement + InvocationManagement + StatusManagement + InvocationHooks +
    UpdateManagement + IndexedResourceStore {
    spec fn identity(&self) -> WorkerId;

    spec fn public_state_view(&self) -> &PublicState;

    fn get_public_state(&self) -> (r: &PublicState)
        ensures
            r == self.public_state_view(),
    ;

    fn worker_id(&self) -> (r: &WorkerId)
        ensures
            *r == self.identity(),
    ;

    fn component_metadata(&self) -> (r: ComponentMetadata)
        ensures
            r == self.metadata(),
    ;
}

/// The context of one durable worker.
pub struct DurableWorkerCtx {
    worker_id: WorkerId,
    metadata: ComponentMetadata,
    fuel: FuelLedger,
    log: DurableLog,
    invocations: InvocationState,
    status: StatusManager,
    resources: ResourceIndex,
    retry: RetryConfig,
    failure: Option<RetryDecision>,
    public_state: PublicState,
}

impl DurableWorkerCtx {
    pub closed spec fn wf(&self) -> bool {
        &&& self.fuel.model().wf()
        &&& self.log.model().wf()
        &&& self.resources.wf()
    }

    pub closed spec fn log_model(&self) -> LogModel {
        self.log.model()
    }

    pub closed spec fn fuel_state(&self) -> FuelModel {
        self.fuel.model()
    }

    pub closed spec fn invocations_model(&self) -> InvocationModel {
        self.invocations.model()
    }

    pub closed spec fn resources_model(&self) -> Map<ResourceKey, WorkerResourceId> {
        self.resources.view()
    }

    pub closed spec fn retry_policy(&self) -> RetryConfig {
        self.retry
    }

    pub closed spec fn failure_decision(&self) -> Option<RetryDecision> {
        self.failure
    }

    pub closed spec fn component(&self) -> ComponentMetadata {
        self.metadata
    }

    pub closed spec fn status_manager(&self) -> StatusManager {
        self.status
    }

    pub closed spec fn id(&self) -> WorkerId {
        self.worker_id
    }

    pub closed spec fn public(&self) -> &PublicState {
        &self.public_state
    }

    /// A context for a worker over its recorded log, which it replays before it runs live.
    pub fn create(
        worker_id: WorkerId,
        metadata: ComponentMetadata,
        oplog: Vec<OplogEntry>,
        fuel: FuelLedger,
        retry: RetryConfig,
        status: WorkerStatusRecord,
        public_state: PublicState,
    ) -> (r: DurableWorkerCtx)
        requires
            fuel.model().wf(),
        ensures
            r.wf(),
            r.id() == worker_id,
            r.component() == metadata,
            r.fuel_state() == fuel.model(),
            r.log_model() == (LogModel {
                records: records_of(oplog@),
                position: 0,
                snapshotting: false,
            }),
            r.invocations_model() == (InvocationModel { current: None, results: Seq::empty() }),
            r.status_manager().execution == ExecutionStatus::Loading,
            r.status_manager().record == status,
            r.resources_model() == Map::<ResourceKey, WorkerResourceId>::empty(),
            r.retry_policy() == retry,
            r.failure_decision() is None,
            r.public() == public_state,
    {
        DurableWorkerCtx {
            worker_id,
            metadata,
            fuel,
            log: DurableLog::new(oplog),
            invocations: InvocationState::new(),
            status: StatusManager::new(status),
            resources: ResourceIndex::new(),
            retry,
            failure: None,
            public_state,
        }
    }

    /// The entries of the worker's log.
    pub fn log_entries(&self) -> (r: &Vec<OplogEntry>)
        ensures
            records_of(r@) == self.log_model().records,
    {
        self.log.entries()
    }

    /// Publishes an event of the worker to its subscribers.
    pub fn emit_event(&mut self, event: WorkerEvent)
        ensures
            final(self).public().events.view() == old(self).public().events.view().push(
                (event.kind, event.payload@),
            ),
            final(self).public().directories == old(self).public().directories,
            final(self).log_model() == old(self).log_model(),
            final(self).wf() == old(self).wf(),
    {
        self.public_state.events.emit(event);
    }

    /// Begins an invocation attempt under its idempotency key: an attempt whose key
    /// completed gets the recorded output, one whose key is current waits, any other runs.
    pub fn begin_invocation(&mut self, key: IdempotencyKey) -> (r: InvocationStart)
        ensures
            r.view() == old(self).invocations_model().start_outcome(key.view()),
            final(self).invocations_model() == old(self).invocations_model().after_start(key.view()),
            final(self).log_model() == old(self).log_model(),
            final(self).wf() == old(self).wf(),
    {
        self.invocations.begin_invocation(key)
    }

    /// Asks the worker to stop at its next safe point.
    pub fn interrupt(&mut self, kind: InterruptKind)
        ensures
            final(self).status_manager().record == old(self).status_manager().record,
            final(self).status_manager().execution == crate::status::after_interrupt(
                old(self).status_manager().execution,
                kind,
            ),
            final(self).log_model() == old(self).log_model(),
            final(self).wf() == old(self).wf(),
    {
        self.status.interrupt(kind);
    }

    /// Records what a non-deterministic host call returned while the worker runs live.
    pub fn record_host_response(&mut self, function_name: String, response: Vec<u8>)
        requires
            old(self).wf(),
            old(self).log_model().live(),
        ensures
            final(self).wf(),
            final(self).log_model() == old(self).log_model().persisted(
                LogRecord::ImportedFunctionInvoked {
                    function_name: function_name@,
                    response: response@,
                },
            ),
            final(self).invocations_model() == old(self).invocations_model(),
    {
        self.log.persist(OplogEntry::ImportedFunctionInvoked { function_name, response });
    }

    /// During replay, the response that the host call gave when it ran live.
    pub fn replay_host_response(&mut self, function_name: &String) -> (r: Result<Vec<u8>, HookError>)
        requires
            old(self).wf(),
        ensures
            final(self).wf(),
            final(self).log_model() == old(self).log_model().replayed(),
            final(self).invocations_model() == old(self).invocations_model(),
            match r {
                Ok(v) => old(self).log_model().next_record() == Some(
                    LogRecord::ImportedFunctionInvoked {
                        function_name: function_name@,
                        response: v@,
                    },
                ),
                Err(_) => !holds_host_call(old(self).log_model().next_record(), function_name@),
            },
    {
        match self.log.replay_next() {
            Some(OplogEntry::ImportedFunctionInvoked { function_name: f, response }) => {
                if f == *function_name {
                    Ok(response)
                } else {
                    Err(HookError::UnexpectedOplogEntry)
                }
            },
            _ => Err(HookError::UnexpectedOplogEntry),
        }
    }

    fn prior_failure_count(&self) -> (r: u32)
        ensures
            r as nat == prior_failures(self.log.model().records),
    {
        let _n = self.log.len();
        proof {
            crate::recovery::lemma_last_error_count(self.log.model().records);
        }
        match get_last_error_and_retry_count(self.log.entries()) {
            Some(e) => {
                if e.retry_count >= u32::MAX as u64 {
                    u32::MAX
                } else {
                    (e.retry_count + 1) as u32
                }
            },
            None => 0,
        }
    }
}

impl FuelManagement for DurableWorkerCtx {
    open spec fn fuel_model(&self) -> FuelModel {
        self.fuel_state()
    }

    fn is_out_of_fuel(&self, current_level: i64) -> (r: bool) {
        self.fuel.is_out_of_fuel(current_level)
    }

    fn borrow_fuel(&mut self) -> (r: Result<(), FuelError>) {
        self.fuel.borrow_fuel()
    }

    fn borrow_fuel_sync(&mut self) {
        self.fuel.borrow_fuel_sync()
    }

    fn return_fuel(&mut self, current_level: i64) -> (r: i64) {
        self.fuel.return_fuel(current_level)
    }
}

impl InvocationManagement for DurableWorkerCtx {
    open spec fn invocation_model(&self) -> InvocationModel {
        self.invocations_model()
    }

    open spec fn live(&self) -> bool {
        self.log_model().live()
    }

    fn set_current_idempotency_key(&mut self, key: IdempotencyKey) {
        self.invocations.set_current(key);
    }

    fn get_current_idempotency_key(&self) -> (r: Option<IdempotencyKey>) {
        self.invocations.current()
    }

    fn is_live(&self) -> (r: bool) {
        self.log.is_live()
    }

    fn is_replay(&self) -> (r: bool) {
        self.log.is_replay()
    }
}

impl StatusManagement for DurableWorkerCtx {
    open spec fn execution_status(&self) -> ExecutionStatus {
        self.status_manager().execution
    }

    open spec fn status_record(&self) -> WorkerStatusRecord {
        self.status_manager().record
    }

    fn check_interrupt(&self) -> (r: Option<InterruptKind>) {
        self.status.check_interrupt()
    }

    fn set_suspended(&mut self) {
        self.status.set_suspended()
    }

    fn set_running(&mut self) {
        self.status.set_running()
    }

    fn get_worker_status(&self) -> (r: WorkerStatus) {
        self.status.get_worker_status()
    }

    fn store_worker_status(&mut self, status: WorkerStatus) {
        self.status.store_worker_status(status)
    }

    fn update_pending_invocations(&mut self, pending: u64) {
        self.status.update_pending_invocations(pending)
    }

    fn update_pending_updates(&mut self, pending: u64) {
        self.status.update_pending_updates(pending)
    }
}

impl InvocationHooks for DurableWorkerCtx {
    open spec fn hooks_ready(&self) -> bool {
        self.wf()
    }

    open spec fn hook_log(&self) -> LogModel {
        self.log_model()
    }

    open spec fn hook_invocations(&self) -> InvocationModel {
        self.invocations_model()
    }

    open spec fn retry_config(&self) -> RetryConfig {
        self.retry_policy()
    }

    open spec fn pending_failure(&self) -> Option<RetryDecision> {
        self.failure_decision()
    }

    fn on_exported_function_invoked(
        &mut self,
        full_function_name: &String,
        function_input: &Vec<u8>,
    ) -> (r: Result<(), HookError>) {
        self.failure = None;
        if self.log.is_live() {
            let key = match self.invocations.current() {
                Some(k) => k.value,
                None => String::new(),
            };
            self.log.persist(
                OplogEntry::ExportedFunctionInvoked {
                    function_name: full_function_name.clone(),
                    input: function_input.clone(),
                    idempotency_key: key,
                },
            );
            Ok(())
        } else {
            match self.log.replay_next() {
                Some(OplogEntry::ExportedFunctionInvoked { function_name, input, .. }) => {
                    if function_name == *full_function_name && vec_eq(&input, function_input) {
                        Ok(())
                    } else {
                        Err(HookError::UnexpectedOplogEntry)
                    }
                },
                _ => Err(HookError::UnexpectedOplogEntry),
            }
        }
    }

    fn on_invocation_failure(&mut self, trap_type: TrapType) -> (r: RetryDecision) {
        match self.failure {
            Some(d) => d,
            None => {
                let prior = self.prior_failure_count();
                let decision = decide_retry(&self.retry, trap_type, prior);
                if self.log.is_live() {
                    self.log.persist(OplogEntry::Error { trap: trap_type });
                }
                self.failure = Some(decision);
                decision
            },
        }
    }

    fn on_invocation_success(
        &mut self,
        full_function_name: &String,
        function_input: &Vec<u8>,
        consumed_fuel: i64,
        output: &Vec<u8>,
    ) -> (r: Result<(), HookError>) {
        self.failure = None;
        if self.log.is_live() {
            self.log.persist(
                OplogEntry::ExportedFunctionCompleted { output: output.clone(), consumed_fuel },
            );
            self.invocations.complete_invocation(output);
            Ok(())
        } else {
            match self.log.replay_next() {
                Some(OplogEntry::ExportedFunctionCompleted { output: recorded, .. }) => {
                    if vec_eq(&recorded, output) {
                        self.invocations.complete_invocation(output);
                        Ok(())
                    } else {
                        Err(HookError::UnexpectedOplogEntry)
                    }
                },
                _ => Err(HookError::UnexpectedOplogEntry),
            }
        }
    }
}

impl UpdateManagement for DurableWorkerCtx {
    open spec fn update_ready(&self) -> bool {
        self.wf()
    }

    open spec fn update_log(&self) -> LogModel {
        self.log_model()
    }

    open spec fn metadata(&self) -> ComponentMetadata {
        self.component()
    }

    fn begin_call_snapshotting_function(&mut self) {
        self.log.begin_call_snapshotting_function();
    }

    fn end_call_snapshotting_function(&mut self) {
        self.log.end_call_snapshotting_function();
    }

    fn on_worker_update_failed(&mut self, target_version: u64, details: Option<String>) {
        if self.log.is_live() {
            self.log.persist(OplogEntry::FailedUpdate { target_version, details });
        }
    }

    fn on_worker_update_succeeded(&mut self, target_version: u64, new_component_size: u64) {
        if self.log.is_live() {
            self.log.persist(OplogEntry::SuccessfulUpdate { target_version, new_component_size });
        }
        self.metadata = ComponentMetadata { version: target_version, size: new_component_size };
    }
}

impl IndexedResourceStore for DurableWorkerCtx {
    open spec fn resources_ready(&self) -> bool {
        self.wf()
    }

    open spec fn resource_view(&self) -> Map<ResourceKey, WorkerResourceId> {
        self.resources_model()
    }

    fn get_indexed_resource(&self, resource_name: &str, resource_params: &[String]) -> (r:
        Option<WorkerResourceId>) {
        self.resources.get_indexed_resource(resource_name, resource_params)
    }

    fn store_indexed_resource(
        &mut self,
        resource_name: &str,
        resource_params: &[String],
        resource: WorkerResourceId,
    ) {
        self.resources.store_indexed_resource(resource_name, resource_params, resource)
    }

    fn drop_indexed_resource(&mut self, resource_name: &str, resource_params: &[String]) {
        self.resources.drop_indexed_resource(resource_name, resource_params)
    }
}

impl WorkerCtx for DurableWorkerCtx {
    open spec fn identity(&self) -> WorkerId {
        self.id()
    }

    open spec fn public_state_view(&self) -> &PublicState {
        self.public()
    }

    fn get_public_state(&self) -> (r: &PublicState) {
        &self.public_state
    }

    fn worker_id(&self) -> (r: &WorkerId) {
        &self.worker_id
    }

    fn component_metadata(&self) -> (r: ComponentMetadata) {
        self.metadata
    }
}

/// Whether two byte strings are equal.
pub fn vec_eq(a: &Vec<u8>, b: &Vec<u8>) -> (r: bool)
    ensures
        r == (a@ == b@),
{
    if a.len() != b.len() {
        return false;
    }
    let mut i: usize = 0;
    while i < a.len()
        invariant
            a@.len() == b@.len(),
            i <= a@.len(),
            forall|j: int| 0 <= j < i ==> a@[j] == b@[j],
        decreases a.len() - i,
    {
        if a[i] != b[i] {
            return false;
        }
        i = i + 1;
    }
    proof {
        assert(a@ =~= b@);
    }
    true
}

} // verus!
