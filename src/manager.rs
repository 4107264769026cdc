use vstd::prelude::*;

verus! {

/// Jobs that may hold a parallelism permit at once.
pub const N_PARALLEL: usize = 2;

/// Kinds of job; each kind has one cancellation slot.
pub const N_KINDS: usize = 1;

/// The slot of execute jobs.
pub const KIND_EXECUTE: usize = 0;

/// Seconds of an empty task set before the backend is idled.
pub const IDLE_TIMEOUT_SECS: u64 = 60;

/// Seconds from acceptance after which a session ends.
pub const SESSION_TIMEOUT_SECS: u64 = 2700;

/// A live job: spawned, neither finished nor aborted.
#[derive(Clone, Copy, Debug, PartialEq, Eq, Structural)]
pub struct Job {
    pub id: u64,
    /// Whether the job holds a parallelism permit (else it waits for one).
    pub running: bool,
}

/// How a task left the task set.
#[derive(Clone, Copy, Debug, PartialEq, Eq, Structural)]
pub enum JoinOutcome {
    Completed,
    /// The job ran to its end with an error for the client.
    Failed,
    Cancelled,
    Panicked,
}

/// Why the manager could not hand the backend over for a lifecycle operation.
#[derive(Debug)]
pub enum CoordinatorManagerError {
    /// A job still shares the backend.
    OutstandingCoordinatorIdle,
    /// The backend failed to idle.
    Idle { source: String },
    /// A job still shares the backend.
    OutstandingCoordinatorShutdown,
    /// The backend failed to shut down.
    Shutdown { source: String },
}

/// Number of live jobs that hold a permit.
pub open spec fn running_count(slots: Seq<Option<Job>>) -> nat
    decreases slots.len(),
{
    if slots.len() == 0 {
        0
    } else {
        running_count(slots.drop_last()) + match slots.last() {
            Some(j) => if j.running { 1nat } else { 0nat },
            None => 0nat,
        }
    }
}

/// Number of live jobs.
pub open spec fn live_count(slots: Seq<Option<Job>>) -> nat
    decreases slots.len(),
{
    if slots.len() == 0 {
        0
    } else {
        live_count(slots.drop_last()) + if slots.last() is Some { 1nat } else { 0nat }
    }
}

pub open spec fn permit_of(o: Option<Job>) -> nat {
    match o {
        Some(j) => if j.running { 1nat } else { 0nat },
        None => 0nat,
    }
}

proof fn lemma_running_count_update(s: Seq<Option<Job>>, k: int, v: Option<Job>)
    requires
        0 <= k < s.len(),
    ensures
        running_count(s.update(k, v)) + permit_of(s[k]) == running_count(s) + permit_of(v),
    decreases s.len(),
{
    let t = s.update(k, v);
    if k == s.len() - 1 {
        assert(t.drop_last() =~= s.drop_last());
    } else {
        assert(t.drop_last() =~= s.drop_last().update(k, v));
        lemma_running_count_update(s.drop_last(), k, v);
    }
}

proof fn lemma_live_count_update(s: Seq<Option<Job>>, k: int, v: Option<Job>)
    requires
        0 <= k < s.len(),
    ensures
        live_count(s.update(k, v)) + (if s[k] is Some { 1nat } else { 0nat })
            == live_count(s) + (if v is Some { 1nat } else { 0nat }),
    decreases s.len(),
{
    let t = s.update(k, v);
    if k == s.len() - 1 {
        assert(t.drop_last() =~= s.drop_last());
    } else {
        assert(t.drop_last() =~= s.drop_last().update(k, v));
        lemma_live_count_update(s.drop_last(), k, v);
    }
}

proof fn lemma_live_count_positive(s: Seq<Option<Job>>, k: int)
    requires
        0 <= k < s.len(),
        s[k] is Some,
    ensures
        live_count(s) > 0,
    decreases s.len(),
{
    if k < s.len() - 1 {
        lemma_live_count_positive(s.drop_last(), k);
    }
}

proof fn lemma_running_count_bound(s: Seq<Option<Job>>)
    ensures
        running_count(s) <= live_count(s),
        live_count(s) <= s.len(),
    decreases s.len(),
{
    if s.len() > 0 {
        lemma_running_count_bound(s.drop_last());
    }
}

/// Whether one of the first `n` slots holds the live job `x`.
pub open spec fn live_among(slots: Seq<Option<Job>>, n: int, x: u64) -> bool {
    exists|j: int| 0 <= j < n && #[trigger] slots[j] is Some && slots[j]->Some_0.id == x
}

/// Bookkeeping of one session's jobs: which job occupies each kind's
/// cancellation slot, which of them hold a parallelism permit, and which
/// aborted jobs have not yet been joined. The task set is the live jobs
/// together with the aborted ones still to be joined.
pub struct CoordinatorManager {
    slots: Vec<Option<Job>>,
    aborted: Vec<u64>,
    next_id: u64,
}

impl CoordinatorManager {
    /// The live job of each kind.
    pub closed spec fn slots(&self) -> Seq<Option<Job>> {
        self.slots@
    }

    /// Aborted jobs that have not been joined yet.
    pub closed spec fn aborted(&self) -> Seq<u64> {
        self.aborted@
    }

    /// The id the next spawn hands out.
    pub closed spec fn next_id(&self) -> u64 {
        self.next_id
    }

    /// Whether `id` is a live job or an aborted one not yet joined.
    pub open spec fn in_task_set(&self, id: u64) -> bool {
        live_among(self.slots(), N_KINDS as int, id) || self.aborted().contains(id)
    }

    pub open spec fn task_count(&self) -> nat {
        live_count(self.slots()) + self.aborted().len()
    }

    pub closed spec fn wf(&self) -> bool {
        &&& self.slots@.len() == N_KINDS
        &&& running_count(self.slots@) <= N_PARALLEL
        &&& forall|k: int| 0 <= k < self.slots@.len() && self.slots@[k] is Some
            ==> self.slots@[k]->Some_0.id < self.next_id
    }

    pub fn new() -> (r: CoordinatorManager)
        ensures
            r.wf(),
            r.task_count() == 0,
            r.next_id() == 0,
            r.slots().len() == N_KINDS,
            r.aborted().len() == 0,
            forall|k: int| 0 <= k < N_KINDS ==> r.slots()[k] is None,
    {
        let mut slots: Vec<Option<Job>> = Vec::new();
        slots.push(None);
        let r = CoordinatorManager { slots, aborted: Vec::new(), next_id: 0 };
        proof {
            assert(r.slots@.drop_last() =~= Seq::<Option<Job>>::empty());
            reveal_with_fuel(running_count, 2);
            reveal_with_fuel(live_count, 2);
        }
        r
    }

    /// Whether the task set is empty.
    pub fn is_empty(&self) -> (r: bool)
        requires
            self.wf(),
        ensures
            r == (self.task_count() == 0),
            r == (self.aborted().len() == 0 && forall|k: int| 0 <= k < N_KINDS ==> self.slots()[k] is None),
    {
        let none = self.slots[0].is_none();
        proof {
            assert(self.slots@.drop_last() =~= Seq::<Option<Job>>::empty());
            reveal_with_fuel(live_count, 2);
        }
        none && self.aborted.len() == 0
    }

    /// Number of live jobs holding a permit.
    fn running(&self) -> (r: usize)
        requires
            self.wf(),
        ensures
            r == running_count(self.slots()),
    {
        let mut c: usize = 0;
        let mut i: usize = 0;
        while i < self.slots.len()
            invariant
                self.wf(),
                i <= self.slots@.len(),
                c == running_count(self.slots@.take(i as int)),
                c <= i,
            decreases self.slots@.len() - i,
        {
            proof {
                assert(self.slots@.take(i + 1).drop_last() =~= self.slots@.take(i as int));
            }
            match self.slots[i] {
                Some(j) => if j.running {
                    c = c + 1;
                },
                None => {},
            }
            i = i + 1;
        }
        proof {
            assert(self.slots@.take(i as int) =~= self.slots@);
        }
        c
    }

    /// Registers a new job of `kind`, waiting for a permit, in that kind's
    /// slot. The job that held the slot before, if any, is aborted: it leaves
    /// the live jobs (and gives back its permit) in this same step, and stays
    /// in the task set until it is joined. Returns the new job's id and the
    /// id of the aborted job.
    pub fn spawn(&mut self, kind: usize) -> (r: (u64, Option<u64>))
        requires
            old(self).wf(),
            kind < N_KINDS,
            old(self).next_id() < u64::MAX,
        ensures
            final(self).wf(),
            r.0 == old(self).next_id(),
            final(self).next_id() == old(self).next_id() + 1,
            final(self).task_count() > 0,
            final(self).task_count() == old(self).task_count() + 1,
            final(self).slots().len() == N_KINDS,
            final(self).slots() == old(self).slots().update(kind as int, Some(Job { id: r.0, running: false })),
            match old(self).slots()[kind as int] {
                Some(j) => r.1 == Some(j.id) && final(self).aborted() == old(self).aborted().push(j.id),
                None => r.1.is_none() && final(self).aborted() == old(self).aborted(),
            },
    {
        let id = self.next_id;
        self.next_id = self.next_id + 1;
        let previous = self.slots[kind];
        proof {
            lemma_running_count_update(self.slots@, kind as int, Some(Job { id, running: false }));
            lemma_live_count_update(self.slots@, kind as int, Some(Job { id, running: false }));
        }
        self.slots.set(kind, Some(Job { id, running: false }));
        proof {
            lemma_live_count_positive(self.slots@, kind as int);
        }
        match previous {
            Some(j) => {
                self.aborted.push(j.id);
                (id, Some(j.id))
            },
            None => (id, None),
        }
    }

    /// Hands a permit to the waiting job `id` when fewer than `N_PARALLEL`
    /// permits are held; returns whether it did.
    pub fn acquire_permit(&mut self, id: u64) -> (r: bool)
        requires
            old(self).wf(),
        ensures
            final(self).wf(),
            final(self).next_id() == old(self).next_id(),
            final(self).aborted() == old(self).aborted(),
            final(self).slots().len() == N_KINDS,
            r == (running_count(old(self).slots()) < N_PARALLEL && exists|k: int|
                0 <= k < N_KINDS && old(self).slots()[k] == Some(Job { id, running: false })),
            r ==> exists|k: int| 0 <= k < N_KINDS && old(self).slots()[k] == Some(Job { id, running: false })
                && final(self).slots() == old(self).slots().update(k, Some(Job { id, running: true })),
            !r ==> final(self).slots() == old(self).slots(),
    {
        let held = self.running();
        let mut i: usize = 0;
        while i < self.slots.len()
            invariant
                self.wf(),
                self == old(self),
                held == running_count(self.slots@),
                i <= N_KINDS,
                forall|k: int| 0 <= k < i ==> self.slots@[k] != Some(Job { id, running: false }),
            decreases N_KINDS - i,
        {
            if self.slots[i] == Some(Job { id, running: false }) {
                if held >= N_PARALLEL {
                    return false;
                }
                proof {
                    lemma_running_count_update(self.slots@, i as int, Some(Job { id, running: true }));
                    assert(self.slots@[i as int]->Some_0.id < self.next_id);
                }
                self.slots.set(i, Some(Job { id, running: true }));
                assert(old(self).slots()[i as int] == Some(Job { id, running: false }));
                return true;
            }
            i = i + 1;
        }
        false
    }

    /// Takes the task `id` out of the task set once it has ended (completed,
    /// panicked or cancelled): a live job frees its slot and its permit, an
    /// aborted one leaves the aborted list. Returns whether `id` was in the set.
    pub fn joined(&mut self, id: u64) -> (r: bool)
        requires
            old(self).wf(),
        ensures
            final(self).wf(),
            final(self).slots().len() == N_KINDS,
            final(self).task_count() == if r { old(self).task_count() - 1 } else { old(self).task_count() as int },
            final(self).next_id() == old(self).next_id(),
            r == old(self).in_task_set(id),
            (exists|k: int| 0 <= k < N_KINDS && old(self).slots()[k] is Some
                && old(self).slots()[k]->Some_0.id == id) ==> exists|k: int| 0 <= k < N_KINDS
                && old(self).slots()[k] is Some && old(self).slots()[k]->Some_0.id == id
                && final(self).slots() == old(self).slots().update(k, None)
                && final(self).aborted() == old(self).aborted(),
            !(exists|k: int| 0 <= k < N_KINDS && old(self).slots()[k] is Some
                && old(self).slots()[k]->Some_0.id == id) ==> final(self).slots() == old(self).slots()
                && if old(self).aborted().contains(id) {
                    exists|i: int| 0 <= i < old(self).aborted().len() && old(self).aborted()[i] == id
                        && final(self).aborted() == old(self).aborted().remove(i)
                } else {
                    final(self).aborted() == old(self).aborted()
                },
    {
        let mut k: usize = 0;
        while k < self.slots.len()
            invariant
                self.wf(),
                self == old(self),
                k <= N_KINDS,
                forall|j: int| 0 <= j < k ==> !(self.slots@[j] is Some && self.slots@[j]->Some_0.id == id),
            decreases N_KINDS - k,
        {
            match self.slots[k] {
                Some(j) => if j.id == id {
                    proof {
                        lemma_running_count_update(self.slots@, k as int, None);
                        lemma_live_count_update(self.slots@, k as int, None);
                    }
                    self.slots.set(k, None);
                    assert(0 <= k < N_KINDS && old(self).slots()[k as int] is Some
                        && old(self).slots()[k as int]->Some_0.id == id
                        && self.slots() == old(self).slots().update(k as int, None)
                        && self.aborted() == old(self).aborted());
                    return true;
                },
                None => {},
            }
            k = k + 1;
        }
        let mut i: usize = 0;
        while i < self.aborted.len()
            invariant
                self.wf(),
                self == old(self),
                i <= self.aborted@.len(),
                forall|j: int| 0 <= j < i ==> self.aborted@[j] != id,
                forall|j: int| 0 <= j < N_KINDS ==> !(self.slots@[j] is Some && self.slots@[j]->Some_0.id == id),
            decreases self.aborted@.len() - i,
        {
            if self.aborted[i] == id {
                assert(self.aborted@[i as int] == id);
                self.aborted.remove(i);
                return true;
            }
            i = i + 1;
        }
        false
    }

    /// Lets the backend be idled only when no task shares it.
    pub fn idle(&self) -> (r: Result<(), CoordinatorManagerError>)
        requires
            self.wf(),
        ensures
            r is Ok <==> self.task_count() == 0,
            r is Err ==> r == Err::<(), _>(CoordinatorManagerError::OutstandingCoordinatorIdle),
    {
        if self.is_empty() {
            Ok(())
        } else {
            Err(CoordinatorManagerError::OutstandingCoordinatorIdle)
        }
    }

    /// Aborts every live job and joins every task; the backend is then held
    /// by nobody else and may be shut down. Returns the ids of the jobs it
    /// aborted.
    pub fn shutdown(&mut self) -> (r: Result<Vec<u64>, CoordinatorManagerError>)
        requires
            old(self).wf(),
        ensures
            final(self).wf(),
            final(self).task_count() == 0,
            final(self).slots().len() == N_KINDS,
            final(self).next_id() == old(self).next_id(),
            r is Ok,
            forall|x: u64| r->Ok_0@.contains(x) <==> live_among(old(self).slots(), N_KINDS as int, x),
    {
        let mut ids: Vec<u64> = Vec::new();
        let mut slots: Vec<Option<Job>> = Vec::new();
        let mut k: usize = 0;
        while k < self.slots.len()
            invariant
                self.wf(),
                self == old(self),
                k <= N_KINDS,
                slots@.len() == k,
                forall|j: int| 0 <= j < k ==> slots@[j] is None,
                forall|x: u64| ids@.contains(x) <==> #[trigger] live_among(self.slots@, k as int, x),
            decreases N_KINDS - k,
        {
            let ghost prev = ids@;
            if let Some(j) = self.slots[k] {
                ids.push(j.id);
                proof {
                    assert(ids@.last() == j.id);
                    assert forall|x: u64| ids@.contains(x) <==> (prev.contains(x) || x == j.id) by {
                        if ids@.contains(x) {
                            let w = choose|w: int| 0 <= w < ids@.len() && ids@[w] == x;
                            if w < prev.len() {
                                assert(prev[w] == x);
                            }
                        }
                        if prev.contains(x) {
                            let w = choose|w: int| 0 <= w < prev.len() && prev[w] == x;
                            assert(ids@[w] == x);
                        }
                    }
                }
            }
            slots.push(None);
            proof {
                assert forall|x: u64| live_among(self.slots@, k + 1, x) <==> (live_among(self.slots@, k as int, x)
                    || (self.slots@[k as int] is Some && self.slots@[k as int]->Some_0.id == x)) by {
                    if live_among(self.slots@, k + 1, x) {
                        let j = choose|j: int| 0 <= j < k + 1 && self.slots@[j] is Some && self.slots@[j]->Some_0.id == x;
                        if j < k {
                            assert(live_among(self.slots@, k as int, x));
                        }
                    }
                    if self.slots@[k as int] is Some && self.slots@[k as int]->Some_0.id == x {
                        assert(live_among(self.slots@, k + 1, x));
                    }
                    if live_among(self.slots@, k as int, x) {
                        let j = choose|j: int| 0 <= j < k && self.slots@[j] is Some && self.slots@[j]->Some_0.id == x;
                        assert(live_among(self.slots@, k + 1, x));
                    }
                }
                assert forall|x: u64| ids@.contains(x) <==> live_among(self.slots@, k + 1, x) by {
                    if self.slots@[k as int] is None {
                        assert(ids@ == prev);
                        assert(prev.contains(x) <==> live_among(self.slots@, k as int, x));
                    } else {
                        assert(prev.contains(x) <==> live_among(self.slots@, k as int, x));
                    }
                }
            }
            k = k + 1;
        }
        proof {
            assert(slots@.drop_last() =~= Seq::<Option<Job>>::empty());
            reveal_with_fuel(running_count, 2);
            reveal_with_fuel(live_count, 2);
        }
        self.slots = slots;
        self.aborted = Vec::new();
        Ok(ids)
    }

    /// Hands permits to waiting live jobs, in slot order, while fewer than
    /// `N_PARALLEL` are held. Returns the ids of the jobs that got one.
    /// Afterwards a job still waits only when every permit is held.
    pub fn grant_permits(&mut self) -> (r: Vec<u64>)
        requires
            old(self).wf(),
        ensures
            final(self).wf(),
            final(self).slots().len() == N_KINDS,
            final(self).aborted() == old(self).aborted(),
            final(self).next_id() == old(self).next_id(),
            final(self).task_count() == old(self).task_count(),
            forall|k: int| 0 <= k < N_KINDS ==> final(self).slots()[k] == old(self).slots()[k]
                || (old(self).slots()[k] is Some && !old(self).slots()[k]->Some_0.running
                    && final(self).slots()[k] == Some(Job { id: old(self).slots()[k]->Some_0.id, running: true })
                    && r@.contains(old(self).slots()[k]->Some_0.id)),
            forall|x: u64| r@.contains(x) ==> exists|k: int| 0 <= k < N_KINDS
                && old(self).slots()[k] == Some(Job { id: x, running: false })
                && final(self).slots()[k] == Some(Job { id: x, running: true }),
            forall|k: int| 0 <= k < N_KINDS && final(self).slots()[k] is Some
                && !final(self).slots()[k]->Some_0.running ==> running_count(final(self).slots()) == N_PARALLEL,
    {
        let mut granted: Vec<u64> = Vec::new();
        let mut k: usize = 0;
        while k < self.slots.len()
            invariant
                self.wf(),
                k <= N_KINDS,
                self.aborted@ == old(self).aborted@,
                self.next_id == old(self).next_id,
                live_count(self.slots@) == live_count(old(self).slots@),
                forall|j: int| k <= j < N_KINDS ==> self.slots@[j] == old(self).slots@[j],
                forall|j: int| 0 <= j < N_KINDS ==> self.slots@[j] == old(self).slots@[j]
                    || (old(self).slots@[j] is Some && !old(self).slots@[j]->Some_0.running
                        && self.slots@[j] == Some(Job { id: old(self).slots@[j]->Some_0.id, running: true })
                        && granted@.contains(old(self).slots@[j]->Some_0.id)),
                forall|x: u64| granted@.contains(x) ==> exists|j: int| 0 <= j < N_KINDS
                    && old(self).slots@[j] == Some(Job { id: x, running: false })
                    && self.slots@[j] == Some(Job { id: x, running: true }),
                forall|j: int| 0 <= j < k && self.slots@[j] is Some
                    && !self.slots@[j]->Some_0.running ==> running_count(self.slots@) == N_PARALLEL,
            decreases N_KINDS - k,
        {
            let held = self.running();
            match self.slots[k] {
                Some(j) => {
                    if !j.running && held < N_PARALLEL {
                        let ghost before = self.slots@;
                        let ghost g0 = granted@;
                        proof {
                            lemma_running_count_update(self.slots@, k as int, Some(Job { id: j.id, running: true }));
                            lemma_live_count_update(self.slots@, k as int, Some(Job { id: j.id, running: true }));
                        }
                        self.slots.set(k, Some(Job { id: j.id, running: true }));
                        granted.push(j.id);
                        proof {
                            assert(granted@.last() == j.id);
                            assert forall|x: u64| granted@.contains(x) implies exists|i: int| 0 <= i < N_KINDS
                                && old(self).slots@[i] == Some(Job { id: x, running: false })
                                && self.slots@[i] == Some(Job { id: x, running: true }) by {
                                let w = choose|w: int| 0 <= w < granted@.len() && granted@[w] == x;
                                if w < g0.len() {
                                    assert(g0[w] == x);
                                    assert(g0.contains(x));
                                    let i = choose|i: int| 0 <= i < N_KINDS
                                        && old(self).slots@[i] == Some(Job { id: x, running: false })
                                        && before[i] == Some(Job { id: x, running: true });
                                    assert(i != k);
                                    assert(self.slots@[i] == before[i]);
                                } else {
                                    assert(self.slots@[k as int] == Some(Job { id: x, running: true }));
                                }
                            }
                            assert forall|i: int| 0 <= i < N_KINDS implies self.slots@[i] == old(self).slots@[i]
                                || (old(self).slots@[i] is Some && !old(self).slots@[i]->Some_0.running
                                    && self.slots@[i] == Some(Job { id: old(self).slots@[i]->Some_0.id, running: true })
                                    && granted@.contains(old(self).slots@[i]->Some_0.id)) by {
                                if i == k {
                                    assert(granted@[granted@.len() - 1] == j.id);
                                } else if before[i] != old(self).slots@[i] {
                                    let id = old(self).slots@[i]->Some_0.id;
                                    assert(g0.contains(id));
                                    let w = choose|w: int| 0 <= w < g0.len() && g0[w] == id;
                                    assert(granted@[w] == id);
                                }
                            }
                        }
                    }
                },
                None => {},
            }
            k = k + 1;
        }
        granted
    }

    /// Whether a job id is still free for `spawn`.
    pub fn can_spawn(&self) -> (r: bool)
        ensures
            r == (self.next_id() < u64::MAX),
    {
        self.next_id < u64::MAX
    }
}

/// A well-formed manager has one slot per kind.
pub proof fn lemma_slots_len(m: &CoordinatorManager)
    requires
        m.wf(),
    ensures
        m.slots().len() == N_KINDS,
{
}

/// At most `N_PARALLEL` jobs hold a parallelism permit at any time.
pub proof fn lemma_permits_bounded(m: &CoordinatorManager)
    requires
        m.wf(),
    ensures
        running_count(m.slots()) <= N_PARALLEL,
{
}

/// At most one job of each kind is live at any time, so at most one execute
/// job is live.
pub proof fn lemma_one_live_job_per_kind(m: &CoordinatorManager)
    requires
        m.wf(),
    ensures
        live_count(m.slots()) <= N_KINDS,
        live_count(m.slots()) <= 1,
{
    lemma_running_count_bound(m.slots());
}

} // verus!
