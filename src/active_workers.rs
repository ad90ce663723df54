use vstd::prelude::*;
use crate::ids::WorkerId;
use crate::status::WorkerStatus;

verus! {

/// A worker that this executor holds in memory, with the shard that owns it.
#[derive(Debug)]
pub struct ActiveWorker {
    pub worker_id: WorkerId,
    pub shard: u64,
    pub status: WorkerStatus,
}

impl ActiveWorker {
    pub fn duplicate(&self) -> (r: ActiveWorker)
        ensures
            r == *self,
    {
        ActiveWorker { worker_id: self.worker_id.duplicate(), shard: self.shard, status: self.status }
    }
}

/// A worker handed off by this executor: a running one is suspended, any other keeps its status.
pub open spec fn released_status(s: WorkerStatus) -> WorkerStatus {
    if s == WorkerStatus::Running {
        WorkerStatus::Suspended
    } else {
        s
    }
}

pub open spec fn released_worker(w: ActiveWorker) -> ActiveWorker {
    ActiveWorker { status: released_status(w.status), ..w }
}

/// The workers whose shard is still assigned to this executor, in order.
pub open spec fn kept(ws: Seq<ActiveWorker>, assigned: Seq<u64>) -> Seq<ActiveWorker>
    decreases ws.len(),
{
    if ws.len() == 0 {
        ws
    } else if assigned.contains(ws.last().shard) {
        kept(ws.drop_last(), assigned).push(ws.last())
    } else {
        kept(ws.drop_last(), assigned)
    }
}

/// The workers whose shard went elsewhere, in order, as they are handed off.
pub open spec fn released(ws: Seq<ActiveWorker>, assigned: Seq<u64>) -> Seq<ActiveWorker>
    decreases ws.len(),
{
    if ws.len() == 0 {
        ws
    } else if assigned.contains(ws.last().shard) {
        released(ws.drop_last(), assigned)
    } else {
        released(ws.drop_last(), assigned).push(released_worker(ws.last()))
    }
}

/// The workers other than the given one, in order.
pub open spec fn without(ws: Seq<ActiveWorker>, id: (Seq<char>, Seq<char>)) -> Seq<ActiveWorker>
    decreases ws.len(),
{
    if ws.len() == 0 {
        ws
    } else if ws.last().worker_id.view() == id {
        without(ws.drop_last(), id)
    } else {
        without(ws.drop_last(), id).push(ws.last())
    }
}

pub open spec fn holds(ws: Seq<ActiveWorker>, id: (Seq<char>, Seq<char>)) -> bool {
    exists|i: int| 0 <= i < ws.len() && #[trigger] ws[i].worker_id.view() == id
}

fn shard_assigned(assigned: &[u64], shard: u64) -> (r: bool)
    ensures
        r == assigned@.contains(shard),
{
    let mut i: usize = 0;
    while i < assigned.len()
        invariant
            i <= assigned.len(),
            forall|j: int| 0 <= j < i ==> assigned@[j] != shard,
        decreases assigned.len() - i,
    {
        if assigned[i] == shard {
            return true;
        }
        i = i + 1;
    }
    false
}

/// The registry of workers that this executor holds.
pub struct ActiveWorkers {
    workers: Vec<ActiveWorker>,
}

impl ActiveWorkers {
    pub closed spec fn view(&self) -> Seq<ActiveWorker> {
        self.workers@
    }

    pub fn new() -> (r: ActiveWorkers)
        ensures
            r.view() == Seq::<ActiveWorker>::empty(),
    {
        ActiveWorkers { workers: Vec::new() }
    }

    pub fn len(&self) -> (r: usize)
        ensures
            r == self.view().len(),
    {
        self.workers.len()
    }

    pub fn get(&self, i: usize) -> (r: &ActiveWorker)
        requires
            i < self.view().len(),
        ensures
            *r == self.view()[i as int],
    {
        &self.workers[i]
    }

    /// Whether the worker is held here.
    pub fn contains(&self, worker_id: &WorkerId) -> (r: bool)
        ensures
            r == holds(self.view(), worker_id.view()),
    {
        let mut i: usize = 0;
        while i < self.workers.len()
            invariant
                i <= self.workers@.len(),
                forall|j: int| 0 <= j < i ==> #[trigger] self.workers@[j].worker_id.view() != worker_id.view(),
            decreases self.workers.len() - i,
        {
            if self.workers[i].worker_id.same_as(worker_id) {
                return true;
            }
            i = i + 1;
        }
        false
    }

    /// Adds a worker that is not held yet; reports whether it was added.
    pub fn register(&mut self, worker: ActiveWorker) -> (r: bool)
        ensures
            r == !holds(old(self).view(), worker.worker_id.view()),
            r ==> final(self).view() == old(self).view().push(worker),
            !r ==> final(self).view() == old(self).view(),
    {
        if self.contains(&worker.worker_id) {
            false
        } else {
            self.workers.push(worker);
            true
        }
    }

    /// Forgets a deleted worker.
    pub fn on_worker_deleted(&mut self, worker_id: &WorkerId)
        ensures
            final(self).view() == without(old(self).view(), worker_id.view()),
    {
        let ghost ws = self.workers@;
        let mut rest: Vec<ActiveWorker> = Vec::new();
        let mut i: usize = 0;
        proof {
            assert(ws.subrange(0, 0) =~= Seq::<ActiveWorker>::empty());
        }
        while i < self.workers.len()
            invariant
                ws == self.workers@,
                i <= ws.len(),
                rest@ == without(ws.subrange(0, i as int), worker_id.view()),
            decreases self.workers.len() - i,
        {
            proof {
                assert(ws.subrange(0, i + 1).drop_last() =~= ws.subrange(0, i as int));
            }
            if !self.workers[i].worker_id.same_as(worker_id) {
                rest.push(self.workers[i].duplicate());
            }
            i = i + 1;
        }
        proof {
            assert(ws.subrange(0, ws.len() as int) =~= ws);
        }
        self.workers = rest;
    }

    /// Reconciles the registry with a new shard assignment: keeps the workers whose shard
    /// this executor still owns and hands off the others, suspending those that ran.
    pub fn on_shard_assignment_changed(&mut self, assigned: &[u64]) -> (r: Vec<ActiveWorker>)
        ensures
            final(self).view() == kept(old(self).view(), assigned@),
            r@ == released(old(self).view(), assigned@),
    {
        let ghost ws = self.workers@;
        let mut keep: Vec<ActiveWorker> = Vec::new();
        let mut out: Vec<ActiveWorker> = Vec::new();
        let mut i: usize = 0;
        proof {
            assert(ws.subrange(0, 0) =~= Seq::<ActiveWorker>::empty());
        }
        while i < self.workers.len()
            invariant
                ws == self.workers@,
                i <= ws.len(),
                keep@ == kept(ws.subrange(0, i as int), assigned@),
                out@ == released(ws.subrange(0, i as int), assigned@),
            decreases self.workers.len() - i,
        {
            proof {
                assert(ws.subrange(0, i + 1).drop_last() =~= ws.subrange(0, i as int));
            }
            let w = self.workers[i].duplicate();
            if shard_assigned(assigned, w.shard) {
                keep.push(w);
            } else {
                let status = if w.status == WorkerStatus::Running {
                    WorkerStatus::Suspended
                } else {
                    w.status
                };
                out.push(ActiveWorker { status, ..w });
            }
            i = i + 1;
        }
        proof {
            assert(ws.subrange(0, ws.len() as int) =~= ws);
        }
        self.workers = keep;
        out
    }
}

/// A running worker whose shard this executor no longer owns is handed off suspended and
/// is no longer held here.
pub proof fn lemma_reassigned_worker_released(ws: Seq<ActiveWorker>, assigned: Seq<u64>, i: int)
    requires
        0 <= i < ws.len(),
        !assigned.contains(ws[i].shard),
    ensures
        released(ws, assigned).contains(released_worker(ws[i])),
        !kept(ws, assigned).contains(ws[i]),
        ws[i].status == WorkerStatus::Running ==> released_worker(ws[i]).status
            == WorkerStatus::Suspended,
    decreases ws.len(),
{
    lemma_kept_owned(ws, assigned);
    if i < ws.len() - 1 {
        assert(ws.drop_last()[i] == ws[i]);
        lemma_reassigned_worker_released(ws.drop_last(), assigned, i);
        let prev = released(ws.drop_last(), assigned);
        let j = choose|j: int| 0 <= j < prev.len() && prev[j] == released_worker(ws[i]);
        assert(released(ws, assigned)[j] == released_worker(ws[i]));
    } else {
        let r = released(ws, assigned);
        assert(r[r.len() - 1] == released_worker(ws[i]));
    }
}

proof fn lemma_kept_owned(ws: Seq<ActiveWorker>, assigned: Seq<u64>)
    ensures
        forall|j: int|
            0 <= j < kept(ws, assigned).len() ==> assigned.contains(
                #[trigger] kept(ws, assigned)[j].shard,
            ),
    decreases ws.len(),
{
    if ws.len() > 0 {
        lemma_kept_owned(ws.drop_last(), assigned);
    }
}

} // verus!
