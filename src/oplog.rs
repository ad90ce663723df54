use vstd::prelude::*;
use crate::retry::TrapType;

verus! {

/// One record of a worker's append-only operation log.
pub enum OplogEntry {
    /// An exported function was invoked.
    ExportedFunctionInvoked { function_name: String, input: Vec<u8>, idempotency_key: String },
    /// The invocation completed with this output.
    ExportedFunctionCompleted { output: Vec<u8>, consumed_fuel: i64 },
    /// A non-deterministic host function returned this response.
    ImportedFunctionInvoked { function_name: String, response: Vec<u8> },
    /// The invocation failed.
    Error { trap: TrapType },
    Suspend,
    Interrupted,
    Exited,
    PendingUpdate { target_version: u64 },
    SuccessfulUpdate { target_version: u64, new_component_size: u64 },
    FailedUpdate { target_version: u64, details: Option<String> },
}

/// The mathematical value of an oplog entry.
pub enum LogRecord {
    ExportedFunctionInvoked { function_name: Seq<char>, input: Seq<u8>, idempotency_key: Seq<char> },
    ExportedFunctionCompleted { output: Seq<u8>, consumed_fuel: i64 },
    ImportedFunctionInvoked { function_name: Seq<char>, response: Seq<u8> },
    Error { trap: TrapType },
    Suspend,
    Interrupted,
    Exited,
    PendingUpdate { target_version: u64 },
    SuccessfulUpdate { target_version: u64, new_component_size: u64 },
    FailedUpdate { target_version: u64, details: Option<Seq<char>> },
}

pub open spec fn opt_str_view(s: Option<String>) -> Option<Seq<char>> {
    match s {
        Some(t) => Some(t@),
        None => None,
    }
}

impl OplogEntry {
    pub open spec fn view(&self) -> LogRecord {
        match self {
            OplogEntry::ExportedFunctionInvoked { function_name, input, idempotency_key } =>
                LogRecord::ExportedFunctionInvoked {
                function_name: function_name@,
                input: input@,
                idempotency_key: idempotency_key@,
            },
            OplogEntry::ExportedFunctionCompleted { output, consumed_fuel } =>
                LogRecord::ExportedFunctionCompleted { output: output@, consumed_fuel: *consumed_fuel },
            OplogEntry::ImportedFunctionInvoked { function_name, response } =>
                LogRecord::ImportedFunctionInvoked {
                function_name: function_name@,
                response: response@,
            },
            OplogEntry::Error { trap } => LogRecord::Error { trap: *trap },
            OplogEntry::Suspend => LogRecord::Suspend,
            OplogEntry::Interrupted => LogRecord::Interrupted,
            OplogEntry::Exited => LogRecord::Exited,
            OplogEntry::PendingUpdate { target_version } => LogRecord::PendingUpdate {
                target_version: *target_version,
            },
            OplogEntry::SuccessfulUpdate { target_version, new_component_size } =>
                LogRecord::SuccessfulUpdate {
                target_version: *target_version,
                new_component_size: *new_component_size,
            },
            OplogEntry::FailedUpdate { target_version, details } => LogRecord::FailedUpdate {
                target_version: *target_version,
                details: opt_str_view(*details),
            },
        }
    }

    /// A copy of the entry.
    pub fn duplicate(&self) -> (r: OplogEntry)
        ensures
            r.view() == self.view(),
    {
        match self {
            OplogEntry::ExportedFunctionInvoked { function_name, input, idempotency_key } => {
                OplogEntry::ExportedFunctionInvoked {
                    function_name: function_name.clone(),
                    input: input.clone(),
                    idempotency_key: idempotency_key.clone(),
                }
            },
            OplogEntry::ExportedFunctionCompleted { output, consumed_fuel } => {
                OplogEntry::ExportedFunctionCompleted {
                    output: output.clone(),
                    consumed_fuel: *consumed_fuel,
                }
            },
            OplogEntry::ImportedFunctionInvoked { function_name, response } => {
                OplogEntry::ImportedFunctionInvoked {
                    function_name: function_name.clone(),
                    response: response.clone(),
                }
            },
            OplogEntry::Error { trap } => OplogEntry::Error { trap: *trap },
            OplogEntry::Suspend => OplogEntry::Suspend,
            OplogEntry::Interrupted => OplogEntry::Interrupted,
            OplogEntry::Exited => OplogEntry::Exited,
            OplogEntry::PendingUpdate { target_version } => OplogEntry::PendingUpdate {
                target_version: *target_version,
            },
            OplogEntry::SuccessfulUpdate { target_version, new_component_size } => {
                OplogEntry::SuccessfulUpdate {
                    target_version: *target_version,
                    new_component_size: *new_component_size,
                }
            },
            OplogEntry::FailedUpdate { target_version, details } => {
                let d = match details {
                    Some(t) => Some(t.clone()),
                    None => None,
                };
                OplogEntry::FailedUpdate { target_version: *target_version, details: d }
            },
        }
    }
}

pub open spec fn records_of(entries: Seq<OplogEntry>) -> Seq<LogRecord> {
    entries.map_values(|e: OplogEntry| e.view())
}

/// The abstract state of a worker's log: its records, how far replay has read them, and
/// whether a snapshotting call is under way.
pub struct LogModel {
    pub records: Seq<LogRecord>,
    pub position: int,
    pub snapshotting: bool,
}

impl LogModel {
    pub open spec fn wf(self) -> bool {
        0 <= self.position <= self.records.len()
    }

    /// Live once replay has read every record.
    pub open spec fn live(self) -> bool {
        self.position >= self.records.len()
    }

    /// A live record is appended, except while a snapshotting call runs.
    pub open spec fn persisted(self, r: LogRecord) -> LogModel {
        if self.snapshotting {
            self
        } else {
            LogModel { records: self.records.push(r), position: self.records.len() + 1int, ..self }
        }
    }

    /// Replay reads the next record.
    pub open spec fn replayed(self) -> LogModel {
        if self.live() {
            self
        } else {
            LogModel { position: self.position + 1, ..self }
        }
    }

    pub open spec fn next_record(self) -> Option<LogRecord> {
        if self.live() {
            None
        } else {
            Some(self.records[self.position])
        }
    }

    pub open spec fn run_live(self, rs: Seq<LogRecord>) -> LogModel
        decreases rs.len(),
    {
        if rs.len() == 0 {
            self
        } else {
            self.persisted(rs[0]).run_live(rs.drop_first())
        }
    }

    /// What `n` replayed steps read.
    pub open spec fn replay_outputs(self, n: nat) -> Seq<Option<LogRecord>>
        decreases n,
    {
        if n == 0 {
            Seq::empty()
        } else {
            seq![self.next_record()] + self.replayed().replay_outputs((n - 1) as nat)
        }
    }

    pub open spec fn run_replay(self, n: nat) -> LogModel
        decreases n,
    {
        if n == 0 {
            self
        } else {
            self.replayed().run_replay((n - 1) as nat)
        }
    }

    pub open spec fn begin_snapshot(self) -> LogModel {
        LogModel { snapshotting: true, ..self }
    }

    pub open spec fn end_snapshot(self) -> LogModel {
        LogModel { snapshotting: false, ..self }
    }
}

/// A worker's operation log, read back during replay and appended to once live.
pub struct DurableLog {
    entries: Vec<OplogEntry>,
    position: usize,
    snapshotting: bool,
}

impl DurableLog {
    pub closed spec fn model(&self) -> LogModel {
        LogModel {
            records: records_of(self.entries@),
            position: self.position as int,
            snapshotting: self.snapshotting,
        }
    }

    /// A log over recorded entries, which replay reads from the first one.
    pub fn new(entries: Vec<OplogEntry>) -> (r: DurableLog)
        ensures
            r.model() == (LogModel {
                records: records_of(entries@),
                position: 0,
                snapshotting: false,
            }),
            r.model().wf(),
    {
        DurableLog { entries, position: 0, snapshotting: false }
    }

    pub fn len(&self) -> (r: usize)
        ensures
            r as int == self.model().records.len(),
    {
        self.entries.len()
    }

    pub fn entry(&self, i: usize) -> (r: &OplogEntry)
        requires
            i < self.model().records.len(),
        ensures
            r.view() == self.model().records[i as int],
    {
        &self.entries[i]
    }

    pub fn entries(&self) -> (r: &Vec<OplogEntry>)
        ensures
            records_of(r@) == self.model().records,
    {
        &self.entries
    }

    pub fn is_live(&self) -> (r: bool)
        ensures
            r == self.model().live(),
    {
        self.position >= self.entries.len()
    }

    pub fn is_replay(&self) -> (r: bool)
        ensures
            r == !self.model().live(),
    {
        self.position < self.entries.len()
    }

    pub fn is_snapshotting(&self) -> (r: bool)
        ensures
            r == self.model().snapshotting,
    {
        self.snapshotting
    }

    /// Appends a record made live; nothing is written while a snapshotting call runs.
    pub fn persist(&mut self, entry: OplogEntry)
        requires
            old(self).model().wf(),
            old(self).model().live(),
        ensures
            final(self).model() == old(self).model().persisted(entry.view()),
            final(self).model().wf(),
            final(self).model().live(),
    {
        if !self.snapshotting {
            let ghost e = entry.view();
            self.entries.push(entry);
            self.position = self.entries.len();
            proof {
                assert(records_of(self.entries@) =~= records_of(old(self).entries@).push(e));
            }
        }
    }

    /// Reads the next recorded entry while replaying; a live log has none.
    pub fn replay_next(&mut self) -> (r: Option<OplogEntry>)
        requires
            old(self).model().wf(),
        ensures
            final(self).model() == old(self).model().replayed(),
            final(self).model().wf(),
            r is None <==> old(self).model().next_record() is None,
            r is Some ==> old(self).model().next_record() == Some(r->0.view()),
    {
        if self.position < self.entries.len() {
            let e = self.entries[self.position].duplicate();
            self.position = self.position + 1;
            Some(e)
        } else {
            None
        }
    }

    /// Marks the start of a call that captures or restores a snapshot: persistence stops.
    pub fn begin_call_snapshotting_function(&mut self)
        ensures
            final(self).model() == old(self).model().begin_snapshot(),
    {
        self.snapshotting = true;
    }

    /// Marks the end of such a call: persistence resumes.
    pub fn end_call_snapshotting_function(&mut self)
        ensures
            final(self).model() == old(self).model().end_snapshot(),
    {
        self.snapshotting = false;
    }
}

/// Replaying the records that a live run wrote, on a fresh log over them, reads back
/// exactly those records in order and ends live, where the live run ended.
pub proof fn lemma_replay_reproduces(rs: Seq<LogRecord>)
    ensures
        (LogModel { records: Seq::empty(), position: 0, snapshotting: false }).run_live(rs).records
            == rs,
        (LogModel { records: rs, position: 0, snapshotting: false }).replay_outputs(rs.len())
            == rs.map_values(|r: LogRecord| Some(r)),
        (LogModel { records: rs, position: 0, snapshotting: false }).run_replay(rs.len()).live(),
        (LogModel { records: rs, position: 0, snapshotting: false }).run_replay(rs.len())
            == (LogModel { records: Seq::empty(), position: 0, snapshotting: false }).run_live(rs),
{
    lemma_run_live_appends(LogModel { records: Seq::empty(), position: 0, snapshotting: false }, rs);
    assert(Seq::<LogRecord>::empty() + rs =~= rs);
    lemma_replay_reads(rs, 0, rs.len());
    assert(rs.subrange(0, rs.len() as int) =~= rs);
}

proof fn lemma_run_live_appends(m: LogModel, rs: Seq<LogRecord>)
    requires
        m.wf(),
        m.live(),
        !m.snapshotting,
    ensures
        m.run_live(rs) == (LogModel {
            records: m.records + rs,
            position: (m.records.len() + rs.len()) as int,
            snapshotting: false,
        }),
    decreases rs.len(),
{
    if rs.len() == 0 {
        assert(m.records + rs =~= m.records);
    } else {
        let m2 = m.persisted(rs[0]);
        lemma_run_live_appends(m2, rs.drop_first());
        assert(m2.records + rs.drop_first() =~= m.records + rs);
    }
}

proof fn lemma_replay_reads(rs: Seq<LogRecord>, p: int, n: nat)
    requires
        0 <= p,
        p + n == rs.len(),
    ensures
        (LogModel { records: rs, position: p, snapshotting: false }).replay_outputs(n)
            == rs.subrange(p, rs.len() as int).map_values(|r: LogRecord| Some(r)),
        (LogModel { records: rs, position: p, snapshotting: false }).run_replay(n) == (LogModel {
            records: rs,
            position: rs.len() as int,
            snapshotting: false,
        }),
    decreases n,
{
    let m = LogModel { records: rs, position: p, snapshotting: false };
    if n == 0 {
        assert(rs.subrange(p, rs.len() as int).map_values(|r: LogRecord| Some(r)) =~= Seq::empty());
    } else {
        lemma_replay_reads(rs, p + 1, (n - 1) as nat);
        assert(m.replayed() == LogModel { records: rs, position: p + 1, snapshotting: false });
        assert(seq![m.next_record()] + rs.subrange(p + 1, rs.len() as int).map_values(
            |r: LogRecord| Some(r),
        ) =~= rs.subrange(p, rs.len() as int).map_values(|r: LogRecord| Some(r)));
    }
}

/// Between the start and the end of a snapshotting call no record reaches the log,
/// whatever is persisted meanwhile, and after the end persistence is on again.
pub proof fn lemma_snapshot_writes_nothing(m: LogModel, rs: Seq<LogRecord>)
    ensures
        m.begin_snapshot().run_live(rs) == m.begin_snapshot(),
        m.begin_snapshot().run_live(rs).end_snapshot().records == m.records,
        !m.begin_snapshot().run_live(rs).end_snapshot().snapshotting,
    decreases rs.len(),
{
    if rs.len() > 0 {
        lemma_snapshot_writes_nothing(m, rs.drop_first());
    }
}

} // verus!
