use vstd::prelude::*;

verus! {

/// The handle of a resource that a worker has constructed.
#[derive(Debug, Clone, Copy, PartialEq, Eq, Structural)]
pub struct WorkerResourceId(pub u64);

/// A resource is indexed by its type's name and the exact text of its constructor parameters.
pub type ResourceKey = (Seq<char>, Seq<Seq<char>>);

pub open spec fn params_view(params: Seq<String>) -> Seq<Seq<char>> {
    params.map_values(|s: String| s@)
}

pub open spec fn resource_key(name: Seq<char>, params: Seq<String>) -> ResourceKey {
    (name, params_view(params))
}

/// Whether two parameter lists hold the same texts in the same order.
pub fn params_equal(a: &[String], b: &[String]) -> (r: bool)
    ensures
        r == (params_view(a@) == params_view(b@)),
{
    if a.len() != b.len() {
        proof {
            assert(params_view(a@).len() != params_view(b@).len());
        }
        return false;
    }
    let mut i: usize = 0;
    while i < a.len()
        invariant
            a.len() == b.len(),
            i <= a.len(),
            forall|j: int| 0 <= j < i ==> a@[j]@ == b@[j]@,
        decreases a.len() - i,
    {
        if a[i] != b[i] {
            proof {
                assert(params_view(a@)[i as int] != params_view(b@)[i as int]);
            }
            return false;
        }
        i = i + 1;
    }
    proof {
        assert(params_view(a@) =~= params_view(b@));
    }
    true
}

fn copy_params(params: &[String]) -> (r: Vec<String>)
    ensures
        params_view(r@) == params_view(params@),
{
    let mut out: Vec<String> = Vec::new();
    let mut i: usize = 0;
    while i < params.len()
        invariant
            i <= params.len(),
            out@.len() == i,
            forall|j: int| 0 <= j < i ==> out@[j]@ == params@[j]@,
        decreases params.len() - i,
    {
        out.push(params[i].clone());
        i = i + 1;
    }
    proof {
        assert(params_view(out@) =~= params_view(params@));
    }
    out
}

struct IndexedResource {
    name: String,
    params: Vec<String>,
    id: WorkerResourceId,
}

impl IndexedResource {
    spec fn key(&self) -> ResourceKey {
        resource_key(self.name@, self.params@)
    }
}

/// A secondary index from a resource's name and constructor parameters to its handle.
pub struct ResourceIndex {
    entries: Vec<IndexedResource>,
    map: Ghost<Map<ResourceKey, WorkerResourceId>>,
}

/// One write to a resource index.
pub enum IndexOp {
    Store(ResourceKey, WorkerResourceId),
    Drop(ResourceKey),
}

pub open spec fn apply_index_op(m: Map<ResourceKey, WorkerResourceId>, op: IndexOp) -> Map<
    ResourceKey,
    WorkerResourceId,
> {
    match op {
        IndexOp::Store(k, id) => m.insert(k, id),
        IndexOp::Drop(k) => m.remove(k),
    }
}

pub open spec fn run_index_ops(m: Map<ResourceKey, WorkerResourceId>, ops: Seq<IndexOp>) -> Map<
    ResourceKey,
    WorkerResourceId,
>
    decreases ops.len(),
{
    if ops.len() == 0 {
        m
    } else {
        run_index_ops(apply_index_op(m, ops[0]), ops.drop_first())
    }
}

pub open spec fn touches(op: IndexOp, k: ResourceKey) -> bool {
    match op {
        IndexOp::Store(k2, _) => k2 == k,
        IndexOp::Drop(k2) => k2 == k,
    }
}

impl ResourceIndex {
    pub closed spec fn view(&self) -> Map<ResourceKey, WorkerResourceId> {
        self.map@
    }

    pub closed spec fn wf(&self) -> bool {
        &&& forall|i: int|
            0 <= i < self.entries@.len() ==> #[trigger] self.map@.contains_key(
                self.entries@[i].key(),
            ) && self.map@[self.entries@[i].key()] == self.entries@[i].id
        &&& forall|k: ResourceKey| #[trigger]
            self.map@.contains_key(k) ==> exists|i: int|
                0 <= i < self.entries@.len() && #[trigger] self.entries@[i].key() == k
        &&& forall|i: int, j: int|
            0 <= i < self.entries@.len() && 0 <= j < self.entries@.len() && #[trigger] self.entries@[i].key()
                == #[trigger] self.entries@[j].key() ==> i == j
    }

    pub fn new() -> (r: ResourceIndex)
        ensures
            r.wf(),
            r.view() == Map::<ResourceKey, WorkerResourceId>::empty(),
    {
        ResourceIndex { entries: Vec::new(), map: Ghost(Map::empty()) }
    }

    fn find(&self, name: &str, params: &[String]) -> (r: Option<usize>)
        requires
            self.wf(),
        ensures
            r is Some ==> r->0 < self.entries@.len() && self.entries@[r->0 as int].key()
                == resource_key(name@, params@),
            r is None ==> !self.view().contains_key(resource_key(name@, params@)),
    {
        let wanted = name.to_owned();
        let mut i: usize = 0;
        while i < self.entries.len()
            invariant
                self.wf(),
                wanted@ == name@,
                i <= self.entries@.len(),
                forall|j: int|
                    0 <= j < i ==> #[trigger] self.entries@[j].key() != resource_key(
                        name@,
                        params@,
                    ),
            decreases self.entries.len() - i,
        {
            let e = &self.entries[i];
            if e.name == wanted && params_equal(e.params.as_slice(), params) {
                return Some(i);
            }
            i = i + 1;
        }
        None
    }

    /// The handle indexed under these exact texts, if any.
    pub fn get_indexed_resource(&self, resource_name: &str, resource_params: &[String]) -> (r:
        Option<WorkerResourceId>)
        requires
            self.wf(),
        ensures
            r == (if self.view().contains_key(resource_key(resource_name@, resource_params@)) {
                Some(self.view()[resource_key(resource_name@, resource_params@)])
            } else {
                None
            }),
    {
        match self.find(resource_name, resource_params) {
            Some(i) => Some(self.entries[i].id),
            None => None,
        }
    }

    /// Indexes a constructed resource; a handle stored earlier under the same texts is replaced.
    pub fn store_indexed_resource(
        &mut self,
        resource_name: &str,
        resource_params: &[String],
        resource: WorkerResourceId,
    )
        requires
            old(self).wf(),
        ensures
            final(self).wf(),
            final(self).view() == old(self).view().insert(
                resource_key(resource_name@, resource_params@),
                resource,
            ),
    {
        let ghost k = resource_key(resource_name@, resource_params@);
        match self.find(resource_name, resource_params) {
            Some(i) => {
                let name = self.entries[i].name.clone();
                let params = copy_params(self.entries[i].params.as_slice());
                let entry = IndexedResource { name, params, id: resource };
                assert(entry.key() == k);
                let ghost old_entries = self.entries@;
                self.entries.set(i, entry);
                self.map = Ghost(self.map@.insert(k, resource));
                proof {
                    assert forall|j: int| 0 <= j < self.entries@.len() implies #[trigger]
                        self.map@.contains_key(self.entries@[j].key())
                            && self.map@[self.entries@[j].key()] == self.entries@[j].id by {
                        if j != i {
                            assert(self.entries@[j] == old_entries[j]);
                            assert(old_entries[j].key() != old_entries[i as int].key());
                            assert(old(self).map@.contains_key(old_entries[j].key()));
                        }
                    }
                    assert forall|a: int, b: int|
                        0 <= a < self.entries@.len() && 0 <= b < self.entries@.len()
                            && #[trigger] self.entries@[a].key() == #[trigger] self.entries@[b].key()
                        implies a == b by {
                        assert(self.entries@[a].key() == old_entries[a].key());
                        assert(self.entries@[b].key() == old_entries[b].key());
                    }
                    assert forall|k2: ResourceKey| #[trigger]
                        self.map@.contains_key(k2) implies exists|j: int|
                        0 <= j < self.entries@.len() && #[trigger] self.entries@[j].key()
                            == k2 by {
                        if k2 == k {
                            assert(self.entries@[i as int].key() == k2);
                        } else {
                            assert(old(self).map@.contains_key(k2));
                            let j = choose|j: int|
                                0 <= j < old(self).entries@.len() && #[trigger] old(
                                    self,
                                ).entries@[j].key() == k2;
                            assert(self.entries@[j].key() == k2);
                        }
                    }
                }
            },
            None => {
                let name = resource_name.to_owned();
                let params = copy_params(resource_params);
                let entry = IndexedResource { name, params, id: resource };
                assert(entry.key() == k);
                self.entries.push(entry);
                self.map = Ghost(self.map@.insert(k, resource));
                proof {
                    let n = old(self).entries@.len();
                    assert(self.entries@[n as int].key() == k);
                    assert forall|k2: ResourceKey| #[trigger]
                        self.map@.contains_key(k2) implies exists|j: int|
                        0 <= j < self.entries@.len() && #[trigger] self.entries@[j].key()
                            == k2 by {
                        if k2 == k {
                            assert(self.entries@[n as int].key() == k2);
                        } else {
                            assert(old(self).map@.contains_key(k2));
                            let j = choose|j: int|
                                0 <= j < old(self).entries@.len() && #[trigger] old(
                                    self,
                                ).entries@[j].key() == k2;
                            assert(self.entries@[j].key() == k2);
                        }
                    }
                    assert forall|a: int, b: int|
                        0 <= a < self.entries@.len() && 0 <= b < self.entries@.len()
                            && #[trigger] self.entries@[a].key() == #[trigger] self.entries@[b].key()
                        implies a == b by {
                        if a < n && b < n {
                            assert(old(self).entries@[a].key() == old(self).entries@[b].key());
                        } else if a < n {
                            assert(old(self).map@.contains_key(old(self).entries@[a].key()));
                        } else if b < n {
                            assert(old(self).map@.contains_key(old(self).entries@[b].key()));
                        }
                    }
                }
            },
        }
    }

    /// Removes the entry under these texts; nothing happens when there is none.
    pub fn drop_indexed_resource(&mut self, resource_name: &str, resource_params: &[String])
        requires
            old(self).wf(),
        ensures
            final(self).wf(),
            final(self).view() == old(self).view().remove(
                resource_key(resource_name@, resource_params@),
            ),
    {
        let ghost k = resource_key(resource_name@, resource_params@);
        match self.find(resource_name, resource_params) {
            Some(i) => {
                let ghost old_entries = self.entries@;
                self.entries.remove(i);
                self.map = Ghost(self.map@.remove(k));
                proof {
                    assert forall|j: int| 0 <= j < self.entries@.len() implies #[trigger]
                        self.map@.contains_key(self.entries@[j].key())
                            && self.map@[self.entries@[j].key()] == self.entries@[j].id by {
                        let oj = if j < i { j } else { j + 1 };
                        assert(self.entries@[j] == old_entries[oj]);
                        assert(old_entries[oj].key() != old_entries[i as int].key());
                        assert(old(self).map@.contains_key(old_entries[oj].key()));
                    }
                    assert forall|k2: ResourceKey| #[trigger]
                        self.map@.contains_key(k2) implies exists|j: int|
                        0 <= j < self.entries@.len() && #[trigger] self.entries@[j].key()
                            == k2 by {
                        assert(old(self).map@.contains_key(k2));
                        let oj = choose|j: int|
                            0 <= j < old_entries.len() && #[trigger] old_entries[j].key() == k2;
                        assert(oj != i);
                        let j = if oj < i { oj } else { oj - 1 };
                        assert(self.entries@[j] == old_entries[oj]);
                    }
                    assert forall|a: int, b: int|
                        0 <= a < self.entries@.len() && 0 <= b < self.entries@.len()
                            && #[trigger] self.entries@[a].key() == #[trigger] self.entries@[b].key()
                        implies a == b by {
                        let oa = if a < i { a } else { a + 1 };
                        let ob = if b < i { b } else { b + 1 };
                        assert(self.entries@[a] == old_entries[oa]);
                        assert(self.entries@[b] == old_entries[ob]);
                    }
                }
            },
            None => {
                proof {
                    assert(self.map@.remove(k) =~= self.map@);
                }
            },
        }
    }
}

/// After any sequence of writes, a lookup finds the handle stored last under exactly those
/// texts, and finds nothing once they were dropped; writes under other texts leave it alone.
pub proof fn lemma_index_lookup(
    m: Map<ResourceKey, WorkerResourceId>,
    ops: Seq<IndexOp>,
    k: ResourceKey,
    id: WorkerResourceId,
    later: Seq<IndexOp>,
)
    requires
        forall|i: int| 0 <= i < later.len() ==> !touches(#[trigger] later[i], k),
    ensures
        run_index_ops(m, ops.push(IndexOp::Store(k, id)) + later).contains_key(k),
        run_index_ops(m, ops.push(IndexOp::Store(k, id)) + later)[k] == id,
        !run_index_ops(m, ops.push(IndexOp::Drop(k)) + later).contains_key(k),
    decreases ops.len(),
{
    if ops.len() == 0 {
        assert((ops.push(IndexOp::Store(k, id)) + later).drop_first() =~= later);
        assert((ops.push(IndexOp::Drop(k)) + later).drop_first() =~= later);
        lemma_untouched(m.insert(k, id), later, k);
        lemma_untouched(m.remove(k), later, k);
    } else {
        assert((ops.push(IndexOp::Store(k, id)) + later).drop_first() =~= ops.drop_first().push(
            IndexOp::Store(k, id),
        ) + later);
        assert((ops.push(IndexOp::Drop(k)) + later).drop_first() =~= ops.drop_first().push(
            IndexOp::Drop(k),
        ) + later);
        lemma_index_lookup(apply_index_op(m, ops[0]), ops.drop_first(), k, id, later);
    }
}

proof fn lemma_untouched(m: Map<ResourceKey, WorkerResourceId>, ops: Seq<IndexOp>, k: ResourceKey)
    requires
        forall|i: int| 0 <= i < ops.len() ==> !touches(#[trigger] ops[i], k),
    ensures
        run_index_ops(m, ops).contains_key(k) == m.contains_key(k),
        m.contains_key(k) ==> run_index_ops(m, ops)[k] == m[k],
    decreases ops.len(),
{
    if ops.len() > 0 {
        assert(!touches(ops[0], k));
        lemma_untouched(apply_index_op(m, ops[0]), ops.drop_first(), k);
    }
}

} // verus!
