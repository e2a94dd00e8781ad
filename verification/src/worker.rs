//! Workers (the machines that run agent runtimes) and their registry.
use vstd::prelude::*;
use crate::collections::clone_strings;
use crate::domain::WorkerId;
use crate::ids::{new_uuid_v7, now_millis, uuid_string, uuid_text};
use crate::table::{Keyed, key_absent, keys_ascending, table_find, table_put};
use crate::text::{decimal_text, push_decimal};

verus! {

/// Where a worker stands.
#[derive(Clone, Copy, Debug, PartialEq, Eq, Structural)]
pub enum WorkerState {
    Online,
    Draining,
    Offline,
    Quarantined,
}

pub open spec fn worker_state_name(s: WorkerState) -> Seq<char> {
    match s {
        WorkerState::Online => "Online"@,
        WorkerState::Draining => "Draining"@,
        WorkerState::Offline => "Offline"@,
        WorkerState::Quarantined => "Quarantined"@,
    }
}

impl WorkerState {
    /// The variant's name, as `{:?}` prints it.
    pub fn name(&self) -> (s: &'static str)
        ensures
            s@ == worker_state_name(*self),
    {
        match self {
            WorkerState::Online => "Online",
            WorkerState::Draining => "Draining",
            WorkerState::Offline => "Offline",
            WorkerState::Quarantined => "Quarantined",
        }
    }
}

/// Where a worker runs.
#[derive(Clone, Copy, Debug, PartialEq, Eq, Structural)]
pub enum WorkerType {
    Local,
    Remote,
}

pub open spec fn worker_type_name(t: WorkerType) -> Seq<char> {
    match t {
        WorkerType::Local => "Local"@,
        WorkerType::Remote => "Remote"@,
    }
}

impl WorkerType {
    /// The variant's name, as `{:?}` prints it.
    pub fn name(&self) -> (s: &'static str)
        ensures
            s@ == worker_type_name(*self),
    {
        match self {
            WorkerType::Local => "Local",
            WorkerType::Remote => "Remote",
        }
    }
}

/// A liveness report of a worker.
#[derive(Clone, Copy, Debug, PartialEq, Eq, Structural)]
pub struct WorkerHeartbeat {
    /// Milliseconds since the epoch.
    pub timestamp: i64,
    pub active_runtimes: u32,
}

/// A machine that runs agent runtimes.
pub struct Worker {
    pub id: WorkerId,
    pub name: String,
    pub worker_type: WorkerType,
    /// What the worker can run.
    pub capabilities: Vec<String>,
    pub state: WorkerState,
    pub heartbeat: Option<WorkerHeartbeat>,
    pub version: String,
    pub is_draining: bool,
    /// Milliseconds since the epoch.
    pub created_at: i64,
    /// Milliseconds since the epoch.
    pub updated_at: i64,
}

impl Keyed for Worker {
    open spec fn key(&self) -> u128 {
        self.id.0
    }

    fn key_of(&self) -> (k: u128) {
        self.id.0
    }
}

/// `b` is a copy of `a`.
pub open spec fn worker_copy(a: Worker, b: Worker) -> bool {
    &&& b.id == a.id
    &&& b.name == a.name
    &&& b.worker_type == a.worker_type
    &&& b.capabilities@ == a.capabilities@
    &&& b.state == a.state
    &&& b.heartbeat == a.heartbeat
    &&& b.version == a.version
    &&& b.is_draining == a.is_draining
    &&& b.created_at == a.created_at
    &&& b.updated_at == a.updated_at
}

impl Worker {
    /// A copy of the worker.
    pub fn duplicate(&self) -> (r: Worker)
        ensures
            worker_copy(*self, r),
    {
        Worker {
            id: self.id,
            name: self.name.clone(),
            worker_type: self.worker_type,
            capabilities: clone_strings(&self.capabilities),
            state: self.state,
            heartbeat: self.heartbeat,
            version: self.version.clone(),
            is_draining: self.is_draining,
            created_at: self.created_at,
            updated_at: self.updated_at,
        }
    }
}

/// The worker's fields other than `state`, `heartbeat`, `is_draining` and
/// `updated_at` are unchanged.
pub open spec fn worker_same_identity(old: Worker, new: Worker) -> bool {
    &&& new.id == old.id
    &&& new.name == old.name
    &&& new.worker_type == old.worker_type
    &&& new.capabilities == old.capabilities
    &&& new.version == old.version
    &&& new.created_at == old.created_at
}

/// Why a worker operation failed.
pub enum WorkerError {
    NotFound(String),
    AlreadyDraining(String),
    Quarantined(String),
    HasActiveRuntimes(String, u32),
    Other(String),
}

impl WorkerError {
    /// The message of the error, as its `Display` prints it.
    pub fn to_string(&self) -> (s: String)
        ensures
            s@ == match self {
                WorkerError::NotFound(n) => "worker not found: "@ + n@,
                WorkerError::AlreadyDraining(n) => "worker "@ + n@ + " is already draining"@,
                WorkerError::Quarantined(n) => "worker "@ + n@ + " is quarantined"@,
                WorkerError::HasActiveRuntimes(n, k) => "worker "@ + n@ + " has active runtimes: "@
                    + decimal_text(*k as nat),
                WorkerError::Other(n) => n@,
            },
    {
        match self {
            WorkerError::NotFound(n) => {
                let mut s = String::from_str("worker not found: ");
                s.append(n.as_str());
                s
            },
            WorkerError::AlreadyDraining(n) => {
                let mut s = String::from_str("worker ");
                s.append(n.as_str());
                s.append(" is already draining");
                s
            },
            WorkerError::Quarantined(n) => {
                let mut s = String::from_str("worker ");
                s.append(n.as_str());
                s.append(" is quarantined");
                s
            },
            WorkerError::HasActiveRuntimes(n, k) => {
                let mut s = String::from_str("worker ");
                s.append(n.as_str());
                s.append(" has active runtimes: ");
                push_decimal(&mut s, *k as u64);
                s
            },
            WorkerError::Other(n) => n.clone(),
        }
    }
}

/// Whole seconds in a span of milliseconds, rounded toward zero, as
/// `chrono::TimeDelta::num_seconds` counts them.
pub open spec fn whole_seconds(ms: int) -> int {
    if ms >= 0 {
        ms / 1000
    } else {
        -((-ms) / 1000)
    }
}

/// An online worker whose last heartbeat is more than `max_seconds` old
/// at `now`, or that never sent one.
pub open spec fn is_stale(w: Worker, now: i64, max_seconds: i64) -> bool {
    &&& w.state == WorkerState::Online
    &&& match w.heartbeat {
        Some(hb) => whole_seconds(now - hb.timestamp) > max_seconds,
        None => true,
    }
}

/// The stale workers of `s` at `now`, in order.
pub open spec fn stale_workers(s: Seq<Worker>, now: i64, max_seconds: i64) -> Seq<Worker> {
    workers_where(s, |w: Worker| is_stale(w, now, max_seconds))
}

/// The workers of `s` that pass a predicate, in order.
pub open spec fn workers_where(s: Seq<Worker>, pred: spec_fn(Worker) -> bool) -> Seq<Worker>
    decreases s.len(),
{
    if s.len() == 0 {
        s
    } else if pred(s.last()) {
        workers_where(s.drop_last(), pred).push(s.last())
    } else {
        workers_where(s.drop_last(), pred)
    }
}

/// `r` is a copy of `s`, element by element.
pub open spec fn worker_copies(s: Seq<Worker>, r: Seq<Worker>) -> bool {
    &&& r.len() == s.len()
    &&& forall|i: int| 0 <= i < s.len() ==> worker_copy(#[trigger] s[i], r[i])
}

/// How many workers of `s` are in a state.
pub open spec fn workers_in_state(s: Seq<Worker>, st: WorkerState) -> nat {
    workers_where(s, |w: Worker| w.state == st).len()
}

/// `(state name, count)` for each state of `states` that some worker of
/// `s` is in, in the order of `states`.
pub open spec fn worker_state_counts(states: Seq<WorkerState>, s: Seq<Worker>) -> Seq<(Seq<char>, nat)>
    decreases states.len(),
{
    if states.len() == 0 {
        Seq::empty()
    } else if workers_in_state(s, states.last()) > 0 {
        worker_state_counts(states.drop_last(), s).push(
            (worker_state_name(states.last()), workers_in_state(s, states.last())),
        )
    } else {
        worker_state_counts(states.drop_last(), s)
    }
}

/// Every worker state, in declaration order.
pub open spec fn all_worker_states() -> Seq<WorkerState> {
    seq![WorkerState::Online, WorkerState::Draining, WorkerState::Offline, WorkerState::Quarantined]
}

/// The content of count entries.
pub open spec fn worker_count_entries(v: Seq<(String, usize)>) -> Seq<(Seq<char>, nat)> {
    Seq::new(v.len(), |i: int| (v[i].0@, v[i].1 as nat))
}

/// The worker `new` is `old` with the given state, heartbeat and draining
/// flag; everything else but the update time is unchanged.
pub open spec fn worker_updated(
    old: Worker,
    new: Worker,
    state: WorkerState,
    heartbeat: Option<WorkerHeartbeat>,
    is_draining: bool,
) -> bool {
    &&& worker_same_identity(old, new)
    &&& new.state == state
    &&& new.heartbeat == heartbeat
    &&& new.is_draining == is_draining
}

/// The worker registry, in ascending id order.
pub struct WorkerService {
    workers: Vec<Worker>,
}

/// Which kind of update an operation applies to a found worker.
enum WorkerChange {
    Heartbeat(WorkerHeartbeat),
    Drain,
    Offline,
    Quarantine,
}

impl WorkerService {
    /// The registered workers, in ascending id order.
    pub closed spec fn workers(&self) -> Seq<Worker> {
        self.workers@
    }

    #[verifier::type_invariant]
    closed spec fn wf(&self) -> bool {
        keys_ascending(self.workers@)
    }

    /// An empty registry.
    pub fn new() -> (s: WorkerService)
        ensures
            s.workers().len() == 0,
    {
        WorkerService { workers: Vec::new() }
    }

    /// Registers a new worker, online and not draining, with no heartbeat
    /// yet.
    pub fn register(
        &mut self,
        name: String,
        worker_type: WorkerType,
        capabilities: Vec<String>,
        version: String,
    ) -> (w: Worker)
        ensures
            w.name == name,
            w.worker_type == worker_type,
            w.capabilities@ == capabilities@,
            w.version == version,
            w.state == WorkerState::Online,
            w.heartbeat is None,
            !w.is_draining,
            w.created_at == w.updated_at,
            exists|y: Worker| final(self).workers().contains(y) && y.id == w.id,
            forall|y: Worker| final(self).workers().contains(y) ==> (y.id == w.id && worker_copy(y, w)) || (old(self).workers().contains(y) && y.id != w.id),
            forall|y: Worker| old(self).workers().contains(y) && y.id != w.id ==> final(self).workers().contains(y),
    {
        let now = now_millis();
        let worker = Worker {
            id: WorkerId(new_uuid_v7()),
            name,
            worker_type,
            capabilities,
            state: WorkerState::Online,
            heartbeat: None,
            version,
            is_draining: false,
            created_at: now,
            updated_at: now,
        };
        let copy = worker.duplicate();
        proof {
            use_type_invariant(&*self);
        }
        let mut v: Vec<Worker> = Vec::new();
        std::mem::swap(&mut v, &mut self.workers);
        let ghost before = v@;
        table_put(&mut v, worker);
        proof {
            assert(v@.contains(worker) && worker.id == copy.id);
            assert forall|y: Worker| v@.contains(y) implies (y.id == copy.id && worker_copy(y, copy)) || (before.contains(y)
                && y.id != copy.id) by {
                if y != worker {
                    assert(y.key() != worker.key());
                }
            }
            assert forall|y: Worker| before.contains(y) && y.id != copy.id implies v@.contains(y) by {
                assert(y.key() != worker.key());
            }
        }
        self.workers = v;
        proof {
            assert(self.workers().contains(worker) && worker.id == copy.id);
        }
        copy
    }

    /// Finds a worker and applies a change to it, refusing a quarantined
    /// worker's heartbeat and a drain of a draining or quarantined worker.
    fn change(&mut self, worker_id: &WorkerId, change: WorkerChange) -> (r: Result<(), WorkerError>)
        ensures
            key_absent(old(self).workers(), worker_id.0) ==> (r matches Err(WorkerError::NotFound(n)) && n@ == uuid_text(
                worker_id.0,
            )) && final(self).workers() == old(self).workers(),
            forall|i: int| 0 <= i < old(self).workers().len() && #[trigger] old(self).workers()[i].id == *worker_id ==> {
                let w = old(self).workers()[i];
                match change {
                    WorkerChange::Heartbeat(hb) => if w.state == WorkerState::Quarantined {
                        (r matches Err(WorkerError::Quarantined(n)) && n@ == uuid_text(worker_id.0)) && final(self).workers() == old(self).workers()
                    } else {
                        r is Ok && final(self).workers().len() == old(self).workers().len() && worker_updated(
                            w,
                            final(self).workers()[i],
                            WorkerState::Online,
                            Some(hb),
                            w.is_draining,
                        ) && forall|j: int| 0 <= j < old(self).workers().len() && j != i ==> final(self).workers()[j]
                            == old(self).workers()[j]
                    },
                    WorkerChange::Drain => if w.is_draining {
                        (r matches Err(WorkerError::AlreadyDraining(n)) && n@ == uuid_text(worker_id.0)) && final(self).workers() == old(self).workers()
                    } else if w.state == WorkerState::Quarantined {
                        (r matches Err(WorkerError::Quarantined(n)) && n@ == uuid_text(worker_id.0)) && final(self).workers() == old(self).workers()
                    } else {
                        r is Ok && final(self).workers().len() == old(self).workers().len() && worker_updated(
                            w,
                            final(self).workers()[i],
                            WorkerState::Draining,
                            w.heartbeat,
                            true,
                        ) && forall|j: int| 0 <= j < old(self).workers().len() && j != i ==> final(self).workers()[j]
                            == old(self).workers()[j]
                    },
                    WorkerChange::Offline => r is Ok && final(self).workers().len() == old(self).workers().len()
                        && worker_updated(
                        w,
                        final(self).workers()[i],
                        WorkerState::Offline,
                        w.heartbeat,
                        w.is_draining,
                    ) && forall|j: int| 0 <= j < old(self).workers().len() && j != i ==> final(self).workers()[j]
                        == old(self).workers()[j],
                    WorkerChange::Quarantine => r is Ok && final(self).workers().len() == old(self).workers().len()
                        && worker_updated(
                        w,
                        final(self).workers()[i],
                        WorkerState::Quarantined,
                        w.heartbeat,
                        w.is_draining,
                    ) && forall|j: int| 0 <= j < old(self).workers().len() && j != i ==> final(self).workers()[j]
                        == old(self).workers()[j],
                }
            },
    {
        proof {
            use_type_invariant(&*self);
        }
        let i = match table_find(&self.workers, worker_id.0) {
            None => {
                proof {
                    assert forall|k: int| 0 <= k < self.workers@.len() implies #[trigger] self.workers@[k].id != *worker_id by {
                        assert(self.workers@[k].key() != worker_id.0);
                    }
                }
                return Err(WorkerError::NotFound(uuid_string(worker_id.0)));
            },
            Some(i) => i,
        };
        proof {
            assert(self.workers@[i as int].id == *worker_id);
            assert forall|k: int| 0 <= k < self.workers@.len() && #[trigger] self.workers@[k].id == *worker_id implies k == i by {
                crate::table::lemma_key_unique(self.workers@, k, i as int);
            }
        }
        let state = self.workers[i].state;
        let draining = self.workers[i].is_draining;
        let (new_state, new_hb, new_draining) = match change {
            WorkerChange::Heartbeat(hb) => {
                if state == WorkerState::Quarantined {
                    return Err(WorkerError::Quarantined(uuid_string(worker_id.0)));
                }
                (WorkerState::Online, Some(hb), draining)
            },
            WorkerChange::Drain => {
                if draining {
                    return Err(WorkerError::AlreadyDraining(uuid_string(worker_id.0)));
                }
                if state == WorkerState::Quarantined {
                    return Err(WorkerError::Quarantined(uuid_string(worker_id.0)));
                }
                (WorkerState::Draining, self.workers[i].heartbeat, true)
            },
            WorkerChange::Offline => (WorkerState::Offline, self.workers[i].heartbeat, draining),
            WorkerChange::Quarantine => (WorkerState::Quarantined, self.workers[i].heartbeat, draining),
        };
        let now = now_millis();
        let mut v: Vec<Worker> = Vec::new();
        std::mem::swap(&mut v, &mut self.workers);
        let ghost before = v@;
        let mut w = v.remove(i);
        w.state = new_state;
        w.heartbeat = new_hb;
        w.is_draining = new_draining;
        w.updated_at = now;
        v.insert(i, w);
        proof {
            assert(v@[i as int] == w);
            assert(v@.len() == before.len());
            assert forall|j: int| 0 <= j < before.len() && j != i implies v@[j] == before[j] by {}
            assert forall|a: int, b: int| 0 <= a < b < v@.len() implies v@[a].key() < v@[b].key() by {
                assert(before[a].key() < before[b].key());
            }
        }
        self.workers = v;
        Ok(())
    }

    /// Processes a heartbeat: the worker is online again with this
    /// heartbeat. A quarantined worker is refused.
    pub fn heartbeat(&mut self, worker_id: &WorkerId, heartbeat: WorkerHeartbeat) -> (r: Result<(), WorkerError>)
        ensures
            key_absent(old(self).workers(), worker_id.0) ==> (r matches Err(WorkerError::NotFound(n)) && n@ == uuid_text(
                worker_id.0,
            )) && final(self).workers() == old(self).workers(),
            forall|i: int| 0 <= i < old(self).workers().len() && #[trigger] old(self).workers()[i].id == *worker_id ==> {
                let w = old(self).workers()[i];
                if w.state == WorkerState::Quarantined {
                    (r matches Err(WorkerError::Quarantined(n)) && n@ == uuid_text(worker_id.0)) && final(self).workers()
                        == old(self).workers()
                } else {
                    r is Ok && final(self).workers().len() == old(self).workers().len() && worker_updated(
                        w,
                        final(self).workers()[i],
                        WorkerState::Online,
                        Some(heartbeat),
                        w.is_draining,
                    ) && forall|j: int| 0 <= j < old(self).workers().len() && j != i ==> final(self).workers()[j]
                        == old(self).workers()[j]
                }
            },
    {
        self.change(worker_id, WorkerChange::Heartbeat(heartbeat))
    }

    /// Marks a worker as draining. A draining or quarantined worker is
    /// refused.
    pub fn drain(&mut self, worker_id: &WorkerId) -> (r: Result<(), WorkerError>)
        ensures
            key_absent(old(self).workers(), worker_id.0) ==> (r matches Err(WorkerError::NotFound(n)) && n@ == uuid_text(
                worker_id.0,
            )) && final(self).workers() == old(self).workers(),
            forall|i: int| 0 <= i < old(self).workers().len() && #[trigger] old(self).workers()[i].id == *worker_id ==> {
                let w = old(self).workers()[i];
                if w.is_draining {
                    (r matches Err(WorkerError::AlreadyDraining(n)) && n@ == uuid_text(worker_id.0)) && final(self).workers()
                        == old(self).workers()
                } else if w.state == WorkerState::Quarantined {
                    (r matches Err(WorkerError::Quarantined(n)) && n@ == uuid_text(worker_id.0)) && final(self).workers()
                        == old(self).workers()
                } else {
                    r is Ok && final(self).workers().len() == old(self).workers().len() && worker_updated(
                        w,
                        final(self).workers()[i],
                        WorkerState::Draining,
                        w.heartbeat,
                        true,
                    ) && forall|j: int| 0 <= j < old(self).workers().len() && j != i ==> final(self).workers()[j]
                        == old(self).workers()[j]
                }
            },
    {
        self.change(worker_id, WorkerChange::Drain)
    }

    /// Marks a worker as offline.
    pub fn mark_offline(&mut self, worker_id: &WorkerId) -> (r: Result<(), WorkerError>)
        ensures
            key_absent(old(self).workers(), worker_id.0) ==> (r matches Err(WorkerError::NotFound(n)) && n@ == uuid_text(
                worker_id.0,
            )) && final(self).workers() == old(self).workers(),
            forall|i: int| 0 <= i < old(self).workers().len() && #[trigger] old(self).workers()[i].id == *worker_id ==> {
                let w = old(self).workers()[i];
                r is Ok && final(self).workers().len() == old(self).workers().len() && worker_updated(
                    w,
                    final(self).workers()[i],
                    WorkerState::Offline,
                    w.heartbeat,
                    w.is_draining,
                ) && forall|j: int| 0 <= j < old(self).workers().len() && j != i ==> final(self).workers()[j] == old(
                    self).workers()[j]
            },
    {
        self.change(worker_id, WorkerChange::Offline)
    }

    /// Quarantines a worker.
    pub fn quarantine(&mut self, worker_id: &WorkerId) -> (r: Result<(), WorkerError>)
        ensures
            key_absent(old(self).workers(), worker_id.0) ==> (r matches Err(WorkerError::NotFound(n)) && n@ == uuid_text(
                worker_id.0,
            )) && final(self).workers() == old(self).workers(),
            forall|i: int| 0 <= i < old(self).workers().len() && #[trigger] old(self).workers()[i].id == *worker_id ==> {
                let w = old(self).workers()[i];
                r is Ok && final(self).workers().len() == old(self).workers().len() && worker_updated(
                    w,
                    final(self).workers()[i],
                    WorkerState::Quarantined,
                    w.heartbeat,
                    w.is_draining,
                ) && forall|j: int| 0 <= j < old(self).workers().len() && j != i ==> final(self).workers()[j] == old(
                    self).workers()[j]
            },
    {
        self.change(worker_id, WorkerChange::Quarantine)
    }

    /// The worker with that id, if registered.
    pub fn get(&self, worker_id: &WorkerId) -> (r: Result<Option<Worker>, WorkerError>)
        ensures
            key_absent(self.workers(), worker_id.0) ==> r matches Ok(None),
            forall|i: int| 0 <= i < self.workers().len() && #[trigger] self.workers()[i].id == *worker_id ==> (r matches Ok(
                Some(c),
            ) && worker_copy(self.workers()[i], c)),
    {
        proof {
            use_type_invariant(self);
        }
        match table_find(&self.workers, worker_id.0) {
            None => Ok(None),
            Some(i) => {
                proof {
                    assert(self.workers@[i as int].id == *worker_id);
                    assert forall|k: int| 0 <= k < self.workers@.len() && #[trigger] self.workers@[k].id == *worker_id implies k == i by {
                        crate::table::lemma_key_unique(self.workers@, k, i as int);
                    }
                }
                Ok(Some(self.workers[i].duplicate()))
            },
        }
    }

    /// All workers, or those in the given state, in ascending id order.
    pub fn list(&self, state_filter: Option<&WorkerState>) -> (r: Result<Vec<Worker>, WorkerError>)
        ensures
            r matches Ok(v) && match state_filter {
                Some(st) => worker_copies(workers_where(self.workers(), |w: Worker| w.state == *st), v@),
                None => worker_copies(self.workers(), v@),
            },
    {
        let mut out: Vec<Worker> = Vec::new();
        let mut i: usize = 0;
        while i < self.workers.len()
            invariant
                i <= self.workers@.len(),
                match state_filter {
                    Some(st) => worker_copies(
                        workers_where(self.workers@.subrange(0, i as int), |w: Worker| w.state == *st),
                        out@,
                    ),
                    None => worker_copies(self.workers@.subrange(0, i as int), out@),
                },
            decreases self.workers.len() - i,
        {
            let ghost pre = self.workers@.subrange(0, i as int);
            let ghost post = self.workers@.subrange(0, i + 1);
            assert(post.drop_last() =~= pre);
            let keep = match state_filter {
                Some(st) => self.workers[i].state == *st,
                None => true,
            };
            if keep {
                let c = self.workers[i].duplicate();
                out.push(c);
            }
            i = i + 1;
        }
        assert(self.workers@.subrange(0, self.workers@.len() as int) =~= self.workers@);
        Ok(out)
    }

    /// The online workers whose last heartbeat is more than
    /// `max_seconds_since_heartbeat` old at `now`, or that never sent one,
    /// in ascending id order.
    pub fn stale_at(&self, now: i64, max_seconds_since_heartbeat: i64) -> (v: Vec<Worker>)
        ensures
            worker_copies(stale_workers(self.workers(), now, max_seconds_since_heartbeat), v@),
    {
        let ghost pred = |w: Worker| is_stale(w, now, max_seconds_since_heartbeat);
        let mut out: Vec<Worker> = Vec::new();
        let mut i: usize = 0;
        while i < self.workers.len()
            invariant
                i <= self.workers@.len(),
                pred == (|w: Worker| is_stale(w, now, max_seconds_since_heartbeat)),
                worker_copies(workers_where(self.workers@.subrange(0, i as int), pred), out@),
            decreases self.workers.len() - i,
        {
            let ghost pre = self.workers@.subrange(0, i as int);
            let ghost post = self.workers@.subrange(0, i + 1);
            assert(post.drop_last() =~= pre);
            let w = &self.workers[i];
            let stale = if w.state != WorkerState::Online {
                false
            } else {
                match w.heartbeat {
                    Some(hb) => {
                        let span: i128 = now as i128 - hb.timestamp as i128;
                        let secs: i128 = span / 1000;
                        secs > max_seconds_since_heartbeat as i128
                    },
                    None => true,
                }
            };
            if stale {
                let c = w.duplicate();
                out.push(c);
            }
            i = i + 1;
        }
        assert(self.workers@.subrange(0, self.workers@.len() as int) =~= self.workers@);
        out
    }

    /// The online workers that have not sent a heartbeat within the last
    /// `max_seconds_since_heartbeat` seconds, measured against the clock.
    pub fn detect_stale(&self, max_seconds_since_heartbeat: i64) -> (r: Result<Vec<Worker>, WorkerError>)
        ensures
            r matches Ok(v) && exists|now: i64|
                worker_copies(#[trigger] stale_workers(self.workers(), now, max_seconds_since_heartbeat), v@),
    {
        let now = now_millis();
        let v = self.stale_at(now, max_seconds_since_heartbeat);
        assert(worker_copies(stale_workers(self.workers(), now, max_seconds_since_heartbeat), v@));
        Ok(v)
    }

    /// How many workers are in each state: one `(state name, count)` entry
    /// for each state that at least one worker is in, in declaration order.
    pub fn count_by_state(&self) -> (r: Result<Vec<(String, usize)>, WorkerError>)
        ensures
            r matches Ok(v) && worker_count_entries(v@) == worker_state_counts(all_worker_states(), self.workers()),
    {
        let states: Vec<WorkerState> = vec![
            WorkerState::Online,
            WorkerState::Draining,
            WorkerState::Offline,
            WorkerState::Quarantined,
        ];
        let mut out: Vec<(String, usize)> = Vec::new();
        let mut k: usize = 0;
        while k < states.len()
            invariant
                k <= states@.len(),
                worker_count_entries(out@) == worker_state_counts(states@.subrange(0, k as int), self.workers@),
            decreases states.len() - k,
        {
            let ghost pre = states@.subrange(0, k as int);
            let ghost post = states@.subrange(0, k + 1);
            assert(post.drop_last() =~= pre);
            let st = states[k];
            let n = self.count_state(st);
            let ghost before = out@;
            if n > 0 {
                out.push((String::from_str(st.name()), n));
                assert(worker_count_entries(out@) =~= worker_count_entries(before).push((worker_state_name(st), n as nat)));
            }
            k = k + 1;
        }
        assert(states@.subrange(0, states@.len() as int) =~= all_worker_states());
        Ok(out)
    }

    fn count_state(&self, st: WorkerState) -> (n: usize)
        ensures
            n == workers_in_state(self.workers@, st),
    {
        let ghost pred = |w: Worker| w.state == st;
        let mut n: usize = 0;
        let mut i: usize = 0;
        while i < self.workers.len()
            invariant
                i <= self.workers@.len(),
                pred == (|w: Worker| w.state == st),
                n == workers_where(self.workers@.subrange(0, i as int), pred).len(),
                n <= i,
            decreases self.workers.len() - i,
        {
            let ghost pre = self.workers@.subrange(0, i as int);
            let ghost post = self.workers@.subrange(0, i + 1);
            assert(post.drop_last() =~= pre);
            if self.workers[i].state == st {
                n = n + 1;
            }
            i = i + 1;
        }
        assert(self.workers@.subrange(0, self.workers@.len() as int) =~= self.workers@);
        n
    }
}

} // verus!
