use vstd::prelude::*;

verus! {

/// The abstract state of a fuel ledger.
///
/// Fuel levels are the engine's counters; the ledger records the level at which it
/// started, how much it has borrowed and returned in total, the limit that the
/// account's limiter last reported, and how much it asks for at a time.
pub struct FuelModel {
    pub start_level: int,
    pub borrowed: int,
    pub returned: int,
    pub cached_limit: int,
    pub borrow_size: int,
}

impl FuelModel {
    pub open spec fn wf(self) -> bool {
        &&& i64::MIN <= self.start_level <= i64::MAX
        &&& 0 <= self.returned <= self.borrowed <= i64::MAX
        &&& 0 <= self.cached_limit <= u64::MAX
        &&& 0 <= self.borrow_size <= u64::MAX
    }

    /// Fuel borrowed and not yet returned.
    pub open spec fn outstanding(self) -> int {
        self.borrowed - self.returned
    }

    /// Fuel consumed by the engine since the ledger started.
    pub open spec fn consumed(self, current_level: int) -> int {
        self.start_level - current_level
    }

    /// The lowest engine level that is still covered by borrowed fuel.
    pub open spec fn min_level(self) -> int {
        self.start_level - self.outstanding()
    }

    pub open spec fn out_of_fuel(self, current_level: int) -> bool {
        current_level < self.min_level()
    }

    /// How much the next borrow takes from the cached limit.
    pub open spec fn grant(self) -> int {
        let headroom = i64::MAX - self.borrowed;
        let a = if self.borrow_size <= self.cached_limit { self.borrow_size } else { self.cached_limit };
        if a <= headroom { a } else { headroom }
    }

    pub open spec fn after_borrow(self) -> FuelModel {
        FuelModel {
            borrowed: self.borrowed + self.grant(),
            cached_limit: self.cached_limit - self.grant(),
            ..self
        }
    }

    /// The unused part of the outstanding fuel at the given level.
    pub open spec fn remaining(self, current_level: int) -> int {
        let unused = self.outstanding() - self.consumed(current_level);
        if unused <= 0 {
            0
        } else if unused >= self.outstanding() {
            self.outstanding()
        } else {
            unused
        }
    }

    pub open spec fn after_return(self, current_level: int) -> FuelModel {
        FuelModel { returned: self.returned + self.remaining(current_level), ..self }
    }

    pub open spec fn with_limit(self, limit: int) -> FuelModel {
        FuelModel { cached_limit: limit, ..self }
    }

    pub open spec fn apply(self, op: FuelOp) -> FuelModel {
        match op {
            FuelOp::Borrow => self.after_borrow(),
            FuelOp::BorrowSync => self.after_borrow(),
            FuelOp::RecordLimit(limit) => self.with_limit(limit as int),
            FuelOp::Return(level) => self.after_return(level as int),
        }
    }

    pub open spec fn run(self, ops: Seq<FuelOp>) -> FuelModel
        decreases ops.len(),
    {
        if ops.len() == 0 {
            self
        } else {
            self.apply(ops[0]).run(ops.drop_first())
        }
    }
}

/// One call on a fuel ledger.
pub enum FuelOp {
    Borrow,
    BorrowSync,
    RecordLimit(u64),
    Return(i64),
}

#[derive(Debug, Clone, Copy, PartialEq, Eq, Structural)]
pub enum FuelError {
    /// The account's limit has no fuel left to lend.
    LimitExhausted,
}

/// Borrowing and returning the fuel that a worker's execution consumes.
///
/// The engine's own fuel counter starts high and only goes down; the manager tracks how
/// much it has borrowed so that it can tell when the counter has passed the borrowed
/// amount, and how much of it is left to give back.
pub trait FuelManagement {
    spec fn fuel_model(&self) -> FuelModel;

    /// Whether the engine has consumed more than the borrowed fuel covers.
    fn is_out_of_fuel(&self, current_level: i64) -> (r: bool)
        requires
            self.fuel_model().wf(),
        ensures
            r == self.fuel_model().out_of_fuel(current_level as int),
    ;

    /// Borrows from the limit that the limiter reported last; fails when nothing can be lent.
    fn borrow_fuel(&mut self) -> (r: Result<(), FuelError>)
        requires
            old(self).fuel_model().wf(),
        ensures
            final(self).fuel_model().wf(),
            old(self).fuel_model().grant() == 0 <==> r is Err,
            r is Err ==> r == Err::<(), FuelError>(FuelError::LimitExhausted),
            r is Ok ==> final(self).fuel_model() == old(self).fuel_model().after_borrow(),
            r is Err ==> final(self).fuel_model() == old(self).fuel_model(),
    ;

    /// Borrows without suspending, from the cached limit, as much as it allows.
    fn borrow_fuel_sync(&mut self)
        requires
            old(self).fuel_model().wf(),
        ensures
            final(self).fuel_model() == old(self).fuel_model().after_borrow(),
            final(self).fuel_model().wf(),
    ;

    /// Gives back the unused part of the borrowed fuel and reports how much that is.
    fn return_fuel(&mut self, current_level: i64) -> (r: i64)
        requires
            old(self).fuel_model().wf(),
        ensures
            r == old(self).fuel_model().remaining(current_level as int),
            final(self).fuel_model() == old(self).fuel_model().after_return(current_level as int),
            final(self).fuel_model().wf(),
    ;
}

/// A fuel ledger for one worker.
pub struct FuelLedger {
    start_level: i64,
    borrowed: u64,
    returned: u64,
    cached_limit: u64,
    borrow_size: u64,
}

impl FuelLedger {
    pub closed spec fn model(&self) -> FuelModel {
        FuelModel {
            start_level: self.start_level as int,
            borrowed: self.borrowed as int,
            returned: self.returned as int,
            cached_limit: self.cached_limit as int,
            borrow_size: self.borrow_size as int,
        }
    }

    /// A ledger for an engine whose counter starts at `start_level`, with nothing borrowed.
    pub fn new(start_level: i64, borrow_size: u64, cached_limit: u64) -> (r: FuelLedger)
        ensures
            r.model() == (FuelModel {
                start_level: start_level as int,
                borrowed: 0,
                returned: 0,
                cached_limit: cached_limit as int,
                borrow_size: borrow_size as int,
            }),
            r.model().wf(),
    {
        FuelLedger { start_level, borrowed: 0, returned: 0, cached_limit, borrow_size }
    }

    /// Records the limit that the account's limiter reported.
    pub fn record_limit(&mut self, limit: u64)
        requires
            old(self).model().wf(),
        ensures
            final(self).model() == old(self).model().with_limit(limit as int),
            final(self).model().wf(),
    {
        self.cached_limit = limit;
    }

    pub fn borrowed_total(&self) -> (r: u64)
        ensures
            r as int == self.model().borrowed,
    {
        self.borrowed
    }

    pub fn returned_total(&self) -> (r: u64)
        ensures
            r as int == self.model().returned,
    {
        self.returned
    }

    pub fn cached_limit(&self) -> (r: u64)
        ensures
            r as int == self.model().cached_limit,
    {
        self.cached_limit
    }

    fn next_grant(&self) -> (r: u64)
        requires
            self.model().wf(),
        ensures
            r as int == self.model().grant(),
    {
        let headroom: u64 = (i64::MAX as u64) - self.borrowed;
        let a: u64 = if self.borrow_size <= self.cached_limit {
            self.borrow_size
        } else {
            self.cached_limit
        };
        if a <= headroom {
            a
        } else {
            headroom
        }
    }

    fn take_grant(&mut self, grant: u64)
        requires
            old(self).model().wf(),
            grant as int == old(self).model().grant(),
        ensures
            final(self).model() == old(self).model().after_borrow(),
            final(self).model().wf(),
    {
        self.borrowed = self.borrowed + grant;
        self.cached_limit = self.cached_limit - grant;
    }
}

impl FuelManagement for FuelLedger {
    open spec fn fuel_model(&self) -> FuelModel {
        self.model()
    }

    fn is_out_of_fuel(&self, current_level: i64) -> (r: bool) {
        let outstanding: i128 = (self.borrowed - self.returned) as i128;
        let min_level: i128 = self.start_level as i128 - outstanding;
        (current_level as i128) < min_level
    }

    fn borrow_fuel(&mut self) -> (r: Result<(), FuelError>) {
        let grant = self.next_grant();
        if grant == 0 {
            Err(FuelError::LimitExhausted)
        } else {
            self.take_grant(grant);
            Ok(())
        }
    }

    fn borrow_fuel_sync(&mut self) {
        let grant = self.next_grant();
        self.take_grant(grant);
    }

    fn return_fuel(&mut self, current_level: i64) -> (r: i64) {
        let outstanding: u64 = self.borrowed - self.returned;
        let consumed: i128 = self.start_level as i128 - current_level as i128;
        let unused: i128 = outstanding as i128 - consumed;
        let remaining: u64 = if unused <= 0 {
            0
        } else if unused >= outstanding as i128 {
            outstanding
        } else {
            unused as u64
        };
        self.returned = self.returned + remaining;
        remaining as i64
    }
}

/// However borrows, refreshed limits and returns follow one another, a ledger never
/// returns more fuel than it has borrowed.
pub proof fn lemma_fuel_balance(m: FuelModel, ops: Seq<FuelOp>)
    requires
        m.wf(),
    ensures
        m.run(ops).wf(),
        m.run(ops).borrowed - m.run(ops).returned >= 0,
    decreases ops.len(),
{
    if ops.len() > 0 {
        lemma_fuel_balance(m.apply(ops[0]), ops.drop_first());
    }
}

/// A borrow that covers what the engine has consumed leaves the worker with fuel.
pub proof fn lemma_borrow_covers_deficit(m: FuelModel, current_level: int)
    requires
        m.wf(),
        m.consumed(current_level) <= m.after_borrow().outstanding(),
    ensures
        !m.after_borrow().out_of_fuel(current_level),
{
}

} // verus!
