use vstd::prelude::*;
use crate::oplog::{LogRecord, OplogEntry, records_of};
use crate::retry::{RetryConfig, RetryDecision, TrapType, decide_retry, retry_decision};
use crate::status::{WorkerStatus, WorkerStatusRecord};

verus! {

/// The most recent failure of a worker and how many times it has been retried since
/// the failures began.
#[derive(Debug, Clone, Copy, PartialEq, Eq, Structural)]
pub struct LastError {
    pub error: TrapType,
    pub retry_count: u64,
}

/// Failures at the end of the log. The host calls that a retried attempt made lie
/// between them; any other record ends the run.
pub open spec fn trailing_errors(rs: Seq<LogRecord>) -> nat
    decreases rs.len(),
{
    if rs.len() == 0 {
        0
    } else {
        match rs.last() {
            LogRecord::Error { .. } => 1 + trailing_errors(rs.drop_last()),
            LogRecord::ImportedFunctionInvoked { .. } => trailing_errors(rs.drop_last()),
            _ => 0,
        }
    }
}

pub open spec fn newest_error(rs: Seq<LogRecord>) -> Option<TrapType>
    decreases rs.len(),
{
    if rs.len() == 0 {
        None
    } else {
        match rs.last() {
            LogRecord::Error { trap } => Some(trap),
            LogRecord::ImportedFunctionInvoked { .. } => newest_error(rs.drop_last()),
            _ => None,
        }
    }
}

pub open spec fn last_error(rs: Seq<LogRecord>) -> Option<LastError> {
    match newest_error(rs) {
        Some(trap) => Some(LastError { error: trap, retry_count: (trailing_errors(rs) - 1) as u64 }),
        None => None,
    }
}

proof fn lemma_newest_error_counts(rs: Seq<LogRecord>)
    ensures
        newest_error(rs) is Some <==> trailing_errors(rs) > 0,
        trailing_errors(rs) <= rs.len(),
    decreases rs.len(),
{
    if rs.len() > 0 {
        lemma_newest_error_counts(rs.drop_last());
    }
}

/// The newest failure at the end of the log and how often it was retried; none if the
/// worker has not failed since its last step forward.
pub fn get_last_error_and_retry_count(entries: &Vec<OplogEntry>) -> (r: Option<LastError>)
    ensures
        r == last_error(records_of(entries@)),
{
    let ghost rs = records_of(entries@);
    let n: usize = entries.len();
    let mut i: usize = n;
    let mut count: usize = 0;
    let mut newest: Option<TrapType> = None;
    let mut done = false;
    proof {
        assert(rs.subrange(0, i as int) =~= rs);
    }
    while i > 0 && !done
        invariant
            i <= entries@.len(),
            n == entries@.len(),
            rs == records_of(entries@),
            count as int + trailing_errors(rs.subrange(0, i as int)) == trailing_errors(rs)
                || done,
            done ==> count as int == trailing_errors(rs),
            count <= entries@.len() - i,
            newest is None ==> newest_error(rs) == newest_error(rs.subrange(0, i as int)) || done,
            newest is None && done ==> newest_error(rs) is None,
            newest is Some ==> newest_error(rs) == newest,
            newest is None ==> count == 0,
        decreases i,
    {
        let ghost pre = rs.subrange(0, i as int);
        proof {
            assert(pre.drop_last() =~= rs.subrange(0, i - 1));
            assert(pre.last() == entries@[i - 1].view());
        }
        match &entries[i - 1] {
            OplogEntry::Error { trap } => {
                if newest.is_none() {
                    newest = Some(*trap);
                }
                count = count + 1;
            },
            OplogEntry::ImportedFunctionInvoked { .. } => {},
            _ => {
                done = true;
            },
        }
        i = i - 1;
    }
    proof {
        if !done {
            assert(rs.subrange(0, 0) =~= Seq::<LogRecord>::empty());
        }
        lemma_newest_error_counts(rs);
    }
    match newest {
        Some(trap) => Some(LastError { error: trap, retry_count: (count - 1) as u64 }),
        None => None,
    }
}

/// What the newest failure says of the run of failures that it ends.
pub proof fn lemma_last_error_count(rs: Seq<LogRecord>)
    requires
        rs.len() <= u64::MAX,
    ensures
        last_error(rs) is None <==> trailing_errors(rs) == 0,
        last_error(rs) is Some ==> last_error(rs)->0.retry_count as int == trailing_errors(rs) - 1,
        trailing_errors(rs) <= rs.len(),
{
    lemma_newest_error_counts(rs);
}

pub open spec fn dec_sat(n: u64) -> u64 {
    if n == 0 { 0 } else { (n - 1) as u64 }
}

pub open spec fn inc_sat_u64(n: u64) -> u64 {
    if n == u64::MAX { n } else { (n + 1) as u64 }
}

pub open spec fn inc_sat_u32(n: u32) -> u32 {
    if n == u32::MAX { n } else { (n + 1) as u32 }
}

/// The status record after one more log record.
pub open spec fn status_step(config: RetryConfig, s: WorkerStatusRecord, r: LogRecord) -> WorkerStatusRecord {
    match r {
        LogRecord::ExportedFunctionInvoked { .. } => WorkerStatusRecord {
            status: WorkerStatus::Running,
            retry_count: 0,
            ..s
        },
        LogRecord::ExportedFunctionCompleted { .. } => WorkerStatusRecord {
            status: WorkerStatus::Idle,
            retry_count: 0,
            ..s
        },
        LogRecord::ImportedFunctionInvoked { .. } => s,
        LogRecord::Error { trap } => WorkerStatusRecord {
            status: if retry_decision(config, trap, s.retry_count as nat) is Fail {
                WorkerStatus::Failed
            } else {
                WorkerStatus::Retrying
            },
            retry_count: inc_sat_u32(s.retry_count),
            ..s
        },
        LogRecord::Suspend => WorkerStatusRecord { status: WorkerStatus::Suspended, retry_count: 0, ..s },
        LogRecord::Interrupted => WorkerStatusRecord {
            status: WorkerStatus::Interrupted,
            retry_count: 0,
            ..s
        },
        LogRecord::Exited => WorkerStatusRecord { status: WorkerStatus::Exited, retry_count: 0, ..s },
        LogRecord::PendingUpdate { .. } => WorkerStatusRecord {
            pending_updates: inc_sat_u64(s.pending_updates),
            retry_count: 0,
            ..s
        },
        LogRecord::SuccessfulUpdate { target_version, .. } => WorkerStatusRecord {
            component_version: target_version,
            pending_updates: dec_sat(s.pending_updates),
            retry_count: 0,
            ..s
        },
        LogRecord::FailedUpdate { .. } => WorkerStatusRecord {
            pending_updates: dec_sat(s.pending_updates),
            retry_count: 0,
            ..s
        },
    }
}

/// The status record that the whole log leads to.
pub open spec fn status_after(config: RetryConfig, s: WorkerStatusRecord, rs: Seq<LogRecord>) -> WorkerStatusRecord
    decreases rs.len(),
{
    if rs.len() == 0 {
        s
    } else {
        status_step(config, status_after(config, s, rs.drop_last()), rs.last())
    }
}

pub open spec fn initial_record(known: Option<WorkerStatusRecord>) -> WorkerStatusRecord {
    match known {
        Some(s) => s,
        None => WorkerStatusRecord {
            status: WorkerStatus::Idle,
            component_version: 0,
            pending_invocations: 0,
            pending_updates: 0,
            retry_count: 0,
        },
    }
}

fn status_step_exec(config: &RetryConfig, s: WorkerStatusRecord, e: &OplogEntry) -> (r: WorkerStatusRecord)
    ensures
        r == status_step(*config, s, e.view()),
{
    match e {
        OplogEntry::ExportedFunctionInvoked { .. } => WorkerStatusRecord {
            status: WorkerStatus::Running,
            retry_count: 0,
            ..s
        },
        OplogEntry::ExportedFunctionCompleted { .. } => WorkerStatusRecord {
            status: WorkerStatus::Idle,
            retry_count: 0,
            ..s
        },
        OplogEntry::ImportedFunctionInvoked { .. } => s,
        OplogEntry::Error { trap } => {
            let decision = decide_retry(config, *trap, s.retry_count);
            let status = match decision {
                RetryDecision::Fail(_) => WorkerStatus::Failed,
                _ => WorkerStatus::Retrying,
            };
            let retry_count = if s.retry_count == u32::MAX {
                s.retry_count
            } else {
                s.retry_count + 1
            };
            WorkerStatusRecord { status, retry_count, ..s }
        },
        OplogEntry::Suspend => WorkerStatusRecord { status: WorkerStatus::Suspended, retry_count: 0, ..s },
        OplogEntry::Interrupted => WorkerStatusRecord {
            status: WorkerStatus::Interrupted,
            retry_count: 0,
            ..s
        },
        OplogEntry::Exited => WorkerStatusRecord { status: WorkerStatus::Exited, retry_count: 0, ..s },
        OplogEntry::PendingUpdate { .. } => {
            let pending_updates = if s.pending_updates == u64::MAX {
                s.pending_updates
            } else {
                s.pending_updates + 1
            };
            WorkerStatusRecord { pending_updates, retry_count: 0, ..s }
        },
        OplogEntry::SuccessfulUpdate { target_version, .. } => {
            let pending_updates = if s.pending_updates == 0 {
                0
            } else {
                s.pending_updates - 1
            };
            WorkerStatusRecord {
                component_version: *target_version,
                pending_updates,
                retry_count: 0,
                ..s
            }
        },
        OplogEntry::FailedUpdate { .. } => {
            let pending_updates = if s.pending_updates == 0 {
                0
            } else {
                s.pending_updates - 1
            };
            WorkerStatusRecord { pending_updates, retry_count: 0, ..s }
        },
    }
}

/// A best-effort status computed from the persisted log alone, starting from the
/// record known from the worker's metadata (or an idle worker of version zero).
pub fn compute_latest_worker_status(
    config: &RetryConfig,
    known: Option<WorkerStatusRecord>,
    entries: &Vec<OplogEntry>,
) -> (r: WorkerStatusRecord)
    ensures
        r == status_after(*config, initial_record(known), records_of(entries@)),
{
    let ghost rs = records_of(entries@);
    let mut s = match known {
        Some(k) => k,
        None => WorkerStatusRecord {
            status: WorkerStatus::Idle,
            component_version: 0,
            pending_invocations: 0,
            pending_updates: 0,
            retry_count: 0,
        },
    };
    let mut i: usize = 0;
    proof {
        assert(rs.subrange(0, 0) =~= Seq::<LogRecord>::empty());
    }
    while i < entries.len()
        invariant
            i <= entries@.len(),
            rs == records_of(entries@),
            s == status_after(*config, initial_record(known), rs.subrange(0, i as int)),
        decreases entries.len() - i,
    {
        proof {
            let next = rs.subrange(0, i + 1);
            assert(next.drop_last() =~= rs.subrange(0, i as int));
            assert(next.last() == entries@[i as int].view());
        }
        s = status_step_exec(config, s, &entries[i]);
        i = i + 1;
    }
    proof {
        assert(rs.subrange(0, entries@.len() as int) =~= rs);
    }
    s
}

} // verus!
