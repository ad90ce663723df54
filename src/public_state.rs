use vstd::prelude::*;

verus! {

/// Where a worker's event came from.
#[derive(Debug, Clone, Copy, PartialEq, Eq, Structural)]
pub enum WorkerEventKind {
    StdOut,
    StdErr,
    Log,
}

/// One event that a worker emitted.
#[derive(Debug)]
pub struct WorkerEvent {
    pub kind: WorkerEventKind,
    pub payload: Vec<u8>,
}

/// The events of one worker, in the order in which it emitted them, for subscribers to read.
pub struct WorkerEventService {
    events: Vec<WorkerEvent>,
}

impl WorkerEventService {
    pub closed spec fn view(&self) -> Seq<(WorkerEventKind, Seq<u8>)> {
        self.events@.map_values(|e: WorkerEvent| (e.kind, e.payload@))
    }

    pub fn new() -> (r: WorkerEventService)
        ensures
            r.view() == Seq::<(WorkerEventKind, Seq<u8>)>::empty(),
    {
        let r = WorkerEventService { events: Vec::new() };
        proof {
            assert(r.view() =~= Seq::<(WorkerEventKind, Seq<u8>)>::empty());
        }
        r
    }

    pub fn emit(&mut self, event: WorkerEvent)
        ensures
            final(self).view() == old(self).view().push((event.kind, event.payload@)),
    {
        let ghost e = (event.kind, event.payload@);
        self.events.push(event);
        proof {
            assert(self.view() =~= old(self).view().push(e));
        }
    }

    pub fn len(&self) -> (r: usize)
        ensures
            r == self.view().len(),
    {
        self.events.len()
    }

    /// The events emitted from the given position on: what a subscriber that has read
    /// that many has not seen yet.
    pub fn events_from(&self, start: usize) -> (r: Vec<WorkerEvent>)
        ensures
            r@.map_values(|e: WorkerEvent| (e.kind, e.payload@)) == if start <= self.view().len() {
                self.view().subrange(start as int, self.view().len() as int)
            } else {
                Seq::empty()
            },
    {
        let mut out: Vec<WorkerEvent> = Vec::new();
        let mut i: usize = start;
        let ghost v = self.view();
        while i < self.events.len()
            invariant
                start <= i || self.events@.len() <= start,
                i <= self.events@.len() || self.events@.len() <= start,
                v == self.view(),
                start <= self.events@.len() ==> out@.map_values(
                    |e: WorkerEvent| (e.kind, e.payload@),
                ) == v.subrange(start as int, i as int),
                start > self.events@.len() ==> out@.len() == 0,
                start >= self.events@.len() ==> i == start,
            decreases self.events.len() - i,
        {
            let e = &self.events[i];
            out.push(WorkerEvent { kind: e.kind, payload: e.payload.clone() });
            proof {
                assert(out@.map_values(|e: WorkerEvent| (e.kind, e.payload@)) =~= v.subrange(
                    start as int,
                    i + 1,
                ));
            }
            i = i + 1;
        }
        proof {
            if start > self.events@.len() {
                assert(out@.map_values(|e: WorkerEvent| (e.kind, e.payload@)) =~= Seq::<
                    (WorkerEventKind, Seq<u8>),
                >::empty());
            } else if start == self.events@.len() {
                assert(out@.map_values(|e: WorkerEvent| (e.kind, e.payload@)) =~= v.subrange(
                    start as int,
                    start as int,
                ));
            }
        }
        out
    }
}

/// The host directories behind a worker's file system: one it may write, and optionally
/// one of read-only files.
#[derive(Debug)]
pub struct FileSystemDirectories {
    pub dir_rw: String,
    pub dir_ro: Option<String>,
}

impl FileSystemDirectories {
    pub fn duplicate(&self) -> (r: FileSystemDirectories)
        ensures
            r == *self,
    {
        let dir_ro = match &self.dir_ro {
            Some(d) => Some(d.clone()),
            None => None,
        };
        FileSystemDirectories { dir_rw: self.dir_rw.clone(), dir_ro }
    }
}

/// Access to a worker's events from outside its execution.
pub trait PublicWorkerIo {
    spec fn events_view(&self) -> Seq<(WorkerEventKind, Seq<u8>)>;

    /// The event service of the worker, through which subscribers read its events.
    fn event_service(&self) -> (r: &WorkerEventService)
        ensures
            r.view() == self.events_view(),
    ;
}

/// Access to a worker's directories from outside its execution.
pub trait PublicWorkerFileSystem {
    spec fn directories_view(&self) -> FileSystemDirectories;

    fn directories(&self) -> (r: FileSystemDirectories)
        ensures
            r == self.directories_view(),
    ;
}

/// The part of a worker's context that request handlers may use while it runs.
pub struct PublicState {
    pub events: WorkerEventService,
    pub directories: FileSystemDirectories,
}

impl PublicWorkerIo for PublicState {
    open spec fn events_view(&self) -> Seq<(WorkerEventKind, Seq<u8>)> {
        self.events.view()
    }

    fn event_service(&self) -> (r: &WorkerEventService) {
        &self.events
    }
}

impl PublicWorkerFileSystem for PublicState {
    open spec fn directories_view(&self) -> FileSystemDirectories {
        self.directories
    }

    fn directories(&self) -> (r: FileSystemDirectories) {
        self.directories.duplicate()
    }
}

} // verus!
