use vstd::prelude::*;

verus! {

/// A worker: the component it runs and its name within that component.
#[derive(Debug)]
pub struct WorkerId {
    pub component_id: String,
    pub worker_name: String,
}

impl WorkerId {
    pub open spec fn view(&self) -> (Seq<char>, Seq<char>) {
        (self.component_id@, self.worker_name@)
    }

    pub fn new(component_id: String, worker_name: String) -> (r: WorkerId)
        ensures
            r.component_id == component_id,
            r.worker_name == worker_name,
    {
        WorkerId { component_id, worker_name }
    }

    /// A copy of the identifier.
    pub fn duplicate(&self) -> (r: WorkerId)
        ensures
            r == *self,
    {
        WorkerId { component_id: self.component_id.clone(), worker_name: self.worker_name.clone() }
    }

    /// Whether both identify the same worker.
    pub fn same_as(&self, other: &WorkerId) -> (r: bool)
        ensures
            r == (self.view() == other.view()),
    {
        self.component_id == other.component_id && self.worker_name == other.worker_name
    }
}

/// The token that ties a request to one logical invocation.
#[derive(Debug)]
pub struct IdempotencyKey {
    pub value: String,
}

impl IdempotencyKey {
    pub open spec fn view(&self) -> Seq<char> {
        self.value@
    }

    pub fn new(value: String) -> (r: IdempotencyKey)
        ensures
            r.value == value,
    {
        IdempotencyKey { value }
    }

    pub fn duplicate(&self) -> (r: IdempotencyKey)
        ensures
            r == *self,
    {
        IdempotencyKey { value: self.value.clone() }
    }

    pub fn same_as(&self, other: &IdempotencyKey) -> (r: bool)
        ensures
            r == (self.view() == other.view()),
    {
        self.value == other.value
    }
}

} // verus!
