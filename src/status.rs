use vstd::prelude::*;

verus! {

/// The persisted status of a worker.
#[derive(Debug, Clone, Copy, PartialEq, Eq, Structural)]
pub enum WorkerStatus {
    Idle,
    Running,
    Suspended,
    Interrupted,
    Failed,
    Exited,
    Retrying,
}

/// Why execution has to stop at its next safe point.
#[derive(Debug, Clone, Copy, PartialEq, Eq, Structural)]
pub enum InterruptKind {
    Interrupt,
    Suspend,
    Restart,
    Jump,
}

/// The in-memory execution status that every collaborator of a running worker reads.
#[derive(Debug, Clone, Copy, PartialEq, Eq, Structural)]
pub enum ExecutionStatus {
    Loading,
    Running,
    Suspended,
    /// An interrupt was requested while the worker ran and is not yet acted upon.
    Interrupting(InterruptKind),
    Interrupted(InterruptKind),
}

/// The persisted status together with its bookkeeping.
#[derive(Debug, Clone, Copy, PartialEq, Eq, Structural)]
pub struct WorkerStatusRecord {
    pub status: WorkerStatus,
    pub component_version: u64,
    pub pending_invocations: u64,
    pub pending_updates: u64,
    /// Failures since the last successful step.
    pub retry_count: u32,
}

/// The moves of the worker's lifecycle: idle to running; from running to idle, suspended,
/// interrupted, failed or exited; back to running from suspended, interrupted or retrying;
/// failed to retrying and retrying to failed. An exited worker stays exited.
pub open spec fn can_transition(from: WorkerStatus, to: WorkerStatus) -> bool {
    match (from, to) {
        (WorkerStatus::Idle, WorkerStatus::Running) => true,
        (WorkerStatus::Running, WorkerStatus::Idle) => true,
        (WorkerStatus::Running, WorkerStatus::Suspended) => true,
        (WorkerStatus::Running, WorkerStatus::Interrupted) => true,
        (WorkerStatus::Running, WorkerStatus::Failed) => true,
        (WorkerStatus::Running, WorkerStatus::Exited) => true,
        (WorkerStatus::Suspended, WorkerStatus::Running) => true,
        (WorkerStatus::Interrupted, WorkerStatus::Running) => true,
        (WorkerStatus::Failed, WorkerStatus::Retrying) => true,
        (WorkerStatus::Retrying, WorkerStatus::Running) => true,
        (WorkerStatus::Retrying, WorkerStatus::Failed) => true,
        _ => false,
    }
}

/// Whether the lifecycle allows moving from one status to another.
pub fn is_valid_transition(from: WorkerStatus, to: WorkerStatus) -> (r: bool)
    ensures
        r == can_transition(from, to),
{
    match (from, to) {
        (WorkerStatus::Idle, WorkerStatus::Running) => true,
        (WorkerStatus::Running, WorkerStatus::Idle) => true,
        (WorkerStatus::Running, WorkerStatus::Suspended) => true,
        (WorkerStatus::Running, WorkerStatus::Interrupted) => true,
        (WorkerStatus::Running, WorkerStatus::Failed) => true,
        (WorkerStatus::Running, WorkerStatus::Exited) => true,
        (WorkerStatus::Suspended, WorkerStatus::Running) => true,
        (WorkerStatus::Interrupted, WorkerStatus::Running) => true,
        (WorkerStatus::Failed, WorkerStatus::Retrying) => true,
        (WorkerStatus::Retrying, WorkerStatus::Running) => true,
        (WorkerStatus::Retrying, WorkerStatus::Failed) => true,
        _ => false,
    }
}

pub open spec fn pending_interrupt(s: ExecutionStatus) -> Option<InterruptKind> {
    match s {
        ExecutionStatus::Interrupting(kind) => Some(kind),
        ExecutionStatus::Interrupted(kind) => Some(kind),
        _ => None,
    }
}

/// The execution status after a request to interrupt: a running worker is asked to stop
/// at its next safe point, any other stops at once. A pending interrupt is kept.
pub open spec fn after_interrupt(s: ExecutionStatus, kind: InterruptKind) -> ExecutionStatus {
    match s {
        ExecutionStatus::Running => ExecutionStatus::Interrupting(kind),
        ExecutionStatus::Interrupting(k) => ExecutionStatus::Interrupting(k),
        ExecutionStatus::Interrupted(k) => ExecutionStatus::Interrupted(k),
        _ => ExecutionStatus::Interrupted(kind),
    }
}

/// Running and suspending never hide a pending interrupt.
pub open spec fn after_set(s: ExecutionStatus, to: ExecutionStatus) -> ExecutionStatus {
    match s {
        ExecutionStatus::Interrupting(_) => s,
        ExecutionStatus::Interrupted(_) => s,
        _ => to,
    }
}

/// Reading and storing the status of a worker.
pub trait StatusManagement {
    spec fn execution_status(&self) -> ExecutionStatus;

    spec fn status_record(&self) -> WorkerStatusRecord;

    /// The pending interrupt, if any: while there is none the worker may go on.
    fn check_interrupt(&self) -> (r: Option<InterruptKind>)
        ensures
            r == pending_interrupt(self.execution_status()),
    ;

    fn set_suspended(&mut self)
        ensures
            final(self).execution_status() == after_set(
                old(self).execution_status(),
                ExecutionStatus::Suspended,
            ),
            final(self).status_record() == old(self).status_record(),
    ;

    fn set_running(&mut self)
        ensures
            final(self).execution_status() == after_set(
                old(self).execution_status(),
                ExecutionStatus::Running,
            ),
            final(self).status_record() == old(self).status_record(),
    ;

    fn get_worker_status(&self) -> (r: WorkerStatus)
        ensures
            r == self.status_record().status,
    ;

    /// Stores a status that the lifecycle allows; any other leaves the record as it was.
    fn store_worker_status(&mut self, status: WorkerStatus)
        ensures
            final(self).execution_status() == old(self).execution_status(),
            can_transition(old(self).status_record().status, status)
                ==> final(self).status_record()
                == (WorkerStatusRecord { status, ..old(self).status_record() }),
            !can_transition(old(self).status_record().status, status)
                ==> final(self).status_record() == old(self).status_record(),
    ;

    /// Records how many invocations are waiting, as the durable queue reports it.
    fn update_pending_invocations(&mut self, pending: u64)
        ensures
            final(self).execution_status() == old(self).execution_status(),
            final(self).status_record() == (WorkerStatusRecord {
                pending_invocations: pending,
                ..old(self).status_record()
            }),
    ;

    /// Records how many updates are waiting, as the durable queue reports it.
    fn update_pending_updates(&mut self, pending: u64)
        ensures
            final(self).execution_status() == old(self).execution_status(),
            final(self).status_record() == (WorkerStatusRecord {
                pending_updates: pending,
                ..old(self).status_record()
            }),
    ;
}

/// The status of one worker: what runs now, and what is persisted.
pub struct StatusManager {
    pub execution: ExecutionStatus,
    pub record: WorkerStatusRecord,
}

impl StatusManager {
    pub fn new(record: WorkerStatusRecord) -> (r: StatusManager)
        ensures
            r.execution == ExecutionStatus::Loading,
            r.record == record,
    {
        StatusManager { execution: ExecutionStatus::Loading, record }
    }

    /// Asks the worker to stop; `check_interrupt` reports it from now on.
    pub fn interrupt(&mut self, kind: InterruptKind)
        ensures
            final(self).execution == after_interrupt(old(self).execution, kind),
            final(self).record == old(self).record,
            pending_interrupt(final(self).execution) is Some,
    {
        self.execution = match self.execution {
            ExecutionStatus::Running => ExecutionStatus::Interrupting(kind),
            ExecutionStatus::Interrupting(k) => ExecutionStatus::Interrupting(k),
            ExecutionStatus::Interrupted(k) => ExecutionStatus::Interrupted(k),
            _ => ExecutionStatus::Interrupted(kind),
        };
    }

    /// The worker has stopped for the pending interrupt.
    pub fn complete_interrupt(&mut self)
        ensures
            final(self).execution == (match old(self).execution {
                ExecutionStatus::Interrupting(k) => ExecutionStatus::Interrupted(k),
                other => other,
            }),
            final(self).record == old(self).record,
    {
        if let ExecutionStatus::Interrupting(k) = self.execution {
            self.execution = ExecutionStatus::Interrupted(k);
        }
    }

    fn set_execution(&mut self, to: ExecutionStatus)
        ensures
            final(self).execution == after_set(old(self).execution, to),
            final(self).record == old(self).record,
    {
        match self.execution {
            ExecutionStatus::Interrupting(_) => {},
            ExecutionStatus::Interrupted(_) => {},
            _ => {
                self.execution = to;
            },
        }
    }
}

impl StatusManagement for StatusManager {
    open spec fn execution_status(&self) -> ExecutionStatus {
        self.execution
    }

    open spec fn status_record(&self) -> WorkerStatusRecord {
        self.record
    }

    fn check_interrupt(&self) -> (r: Option<InterruptKind>) {
        match self.execution {
            ExecutionStatus::Interrupting(kind) => Some(kind),
            ExecutionStatus::Interrupted(kind) => Some(kind),
            _ => None,
        }
    }

    fn set_suspended(&mut self) {
        self.set_execution(ExecutionStatus::Suspended);
    }

    fn set_running(&mut self) {
        self.set_execution(ExecutionStatus::Running);
    }

    fn get_worker_status(&self) -> (r: WorkerStatus) {
        self.record.status
    }

    fn store_worker_status(&mut self, status: WorkerStatus) {
        if is_valid_transition(self.record.status, status) {
            self.record.status = status;
        }
    }

    fn update_pending_invocations(&mut self, pending: u64) {
        self.record.pending_invocations = pending;
    }

    fn update_pending_updates(&mut self, pending: u64) {
        self.record.pending_updates = pending;
    }
}

/// Once an interrupt is requested, it stays visible to `check_interrupt` whatever running
/// or suspending follows, until the worker has stopped for it.
pub proof fn lemma_interrupt_observed(s: ExecutionStatus, kind: InterruptKind, to: ExecutionStatus)
    ensures
        pending_interrupt(after_interrupt(s, kind)) is Some,
        pending_interrupt(after_set(after_interrupt(s, kind), to)) == pending_interrupt(
            after_interrupt(s, kind),
        ),
{
}

} // verus!
