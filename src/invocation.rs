use vstd::prelude::*;
use crate::ids::IdempotencyKey;

verus! {

/// How an invocation attempt begins.
#[derive(Debug)]
pub enum InvocationStart {
    /// No invocation with this key ran before: this one runs live.
    Started,
    /// The invocation with this key is still the current one: the attempt waits for it.
    InProgress,
    /// The invocation with this key completed with this output.
    AlreadyCompleted(Vec<u8>),
}

/// The mathematical value of an invocation attempt's beginning.
pub enum StartOutcome {
    Started,
    InProgress,
    AlreadyCompleted(Seq<u8>),
}

impl InvocationStart {
    pub open spec fn view(&self) -> StartOutcome {
        match self {
            InvocationStart::Started => StartOutcome::Started,
            InvocationStart::InProgress => StartOutcome::InProgress,
            InvocationStart::AlreadyCompleted(o) => StartOutcome::AlreadyCompleted(o@),
        }
    }
}

/// The abstract state: the current key, and the outputs of completed invocations by key.
pub struct InvocationModel {
    pub current: Option<Seq<char>>,
    pub results: Seq<(Seq<char>, Seq<u8>)>,
}

/// The output recorded last under the key.
pub open spec fn lookup_result(results: Seq<(Seq<char>, Seq<u8>)>, key: Seq<char>) -> Option<Seq<u8>>
    decreases results.len(),
{
    if results.len() == 0 {
        None
    } else if results.last().0 == key {
        Some(results.last().1)
    } else {
        lookup_result(results.drop_last(), key)
    }
}

impl InvocationModel {
    pub open spec fn start_outcome(self, key: Seq<char>) -> StartOutcome {
        match lookup_result(self.results, key) {
            Some(o) => StartOutcome::AlreadyCompleted(o),
            None => if self.current == Some(key) {
                StartOutcome::InProgress
            } else {
                StartOutcome::Started
            },
        }
    }

    pub open spec fn after_start(self, key: Seq<char>) -> InvocationModel {
        if self.start_outcome(key) is Started {
            InvocationModel { current: Some(key), ..self }
        } else {
            self
        }
    }

    pub open spec fn after_complete(self, output: Seq<u8>) -> InvocationModel {
        match self.current {
            Some(k) => InvocationModel { current: None, results: self.results.push((k, output)) },
            None => self,
        }
    }
}

/// The invocation that a worker runs now and the outputs of those it has completed.
pub struct InvocationState {
    current: Option<IdempotencyKey>,
    results: Vec<(IdempotencyKey, Vec<u8>)>,
}

pub open spec fn opt_key_view(k: Option<IdempotencyKey>) -> Option<Seq<char>> {
    match k {
        Some(key) => Some(key.view()),
        None => None,
    }
}

impl InvocationState {
    pub closed spec fn model(&self) -> InvocationModel {
        InvocationModel {
            current: opt_key_view(self.current),
            results: self.results@.map_values(|p: (IdempotencyKey, Vec<u8>)| (p.0.view(), p.1@)),
        }
    }

    pub fn new() -> (r: InvocationState)
        ensures
            r.model() == (InvocationModel { current: None, results: Seq::empty() }),
    {
        let r = InvocationState { current: None, results: Vec::new() };
        proof {
            assert(r.model().results =~= Seq::<(Seq<char>, Seq<u8>)>::empty());
        }
        r
    }

    /// Makes the key the current one, replacing any earlier one.
    pub fn set_current(&mut self, key: IdempotencyKey)
        ensures
            final(self).model() == (InvocationModel {
                current: Some(key.view()),
                ..old(self).model()
            }),
    {
        self.current = Some(key);
    }

    pub fn current(&self) -> (r: Option<IdempotencyKey>)
        ensures
            opt_key_view(r) == self.model().current,
    {
        match &self.current {
            Some(k) => Some(k.duplicate()),
            None => None,
        }
    }

    fn find_result(&self, key: &IdempotencyKey) -> (r: Option<Vec<u8>>)
        ensures
            match r {
                Some(o) => lookup_result(self.model().results, key.view()) == Some(o@),
                None => lookup_result(self.model().results, key.view()) is None,
            },
    {
        let ghost rs = self.model().results;
        let mut i: usize = self.results.len();
        proof {
            assert(rs.subrange(0, i as int) =~= rs);
        }
        while i > 0
            invariant
                i <= self.results@.len(),
                rs == self.model().results,
                lookup_result(rs, key.view()) == lookup_result(rs.subrange(0, i as int), key.view()),
            decreases i,
        {
            let ghost pre = rs.subrange(0, i as int);
            proof {
                assert(pre.drop_last() =~= rs.subrange(0, i - 1));
            }
            if self.results[i - 1].0.same_as(key) {
                return Some(self.results[i - 1].1.clone());
            }
            i = i - 1;
        }
        None
    }

    /// Begins an attempt: a key whose invocation completed gets its recorded output, the
    /// current key waits, and any other key becomes the current one and runs.
    pub fn begin_invocation(&mut self, key: IdempotencyKey) -> (r: InvocationStart)
        ensures
            r.view() == old(self).model().start_outcome(key.view()),
            final(self).model() == old(self).model().after_start(key.view()),
    {
        match self.find_result(&key) {
            Some(o) => InvocationStart::AlreadyCompleted(o),
            None => {
                let running = match &self.current {
                    Some(k) => k.same_as(&key),
                    None => false,
                };
                if running {
                    InvocationStart::InProgress
                } else {
                    self.current = Some(key);
                    InvocationStart::Started
                }
            },
        }
    }

    /// Records the output of the current invocation under its key; it is current no more.
    pub fn complete_invocation(&mut self, output: &Vec<u8>)
        ensures
            final(self).model() == old(self).model().after_complete(output@),
    {
        let ghost m = self.model();
        match self.current.take() {
            Some(k) => {
                let ghost kv = k.view();
                self.results.push((k, output.clone()));
                proof {
                    assert(self.model().results =~= m.results.push((kv, output@)));
                }
            },
            None => {},
        }
    }
}

/// Two attempts with one key never both run live: while the first is current the second
/// waits, and once it completed the second gets its recorded output.
pub proof fn lemma_idempotent_start(m: InvocationModel, key: Seq<char>, output: Seq<u8>)
    requires
        m.start_outcome(key) is Started,
    ensures
        m.after_start(key).start_outcome(key) is InProgress,
        m.after_start(key).after_complete(output).start_outcome(key) == StartOutcome::AlreadyCompleted(
            output,
        ),
{
}

} // verus!
