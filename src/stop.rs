//! The stop protocol, and the fan-out that stops every worker.
//!
//! A stop reads the worker's record. With no record there is nothing to
//! stop. A record with a process id has its process signalled and a grace
//! period passes; then, and at once for a record without a process id, the
//! cached process id is forgotten and the record deleted. Deleting the
//! record is what makes a worker gone.
use vstd::prelude::*;
use crate::error::SupervisorError;
use crate::record::ProxyConfig;
use crate::registry::Registry;
use crate::table::id_views;

verus! {

/// Where a stop stands: which outcome it waits for.
#[derive(Debug, Clone, Copy, PartialEq, Eq, Structural)]
pub enum StopPhase {
    Fetching,
    Terminating,
    Waiting,
    Deleting,
    Finished,
}

/// What the driver of a stop is asked to do next.
#[derive(Debug)]
pub enum StopAction {
    /// Read the record of `id` from the store.
    FetchRecord { id: String },
    /// Send process `pid` the platform's termination (see `platform`).
    Terminate { pid: u32 },
    /// Sleep without blocking other tasks.
    Wait { ms: u64 },
    /// Delete the record of `id` from the store.
    DeleteRecord { id: String },
    /// The stop is over; `stopped` is false when there was no record.
    Finish { stopped: bool },
}

/// An outcome handed back to a stop.
pub enum StopInput {
    Fetched(Option<ProxyConfig>),
    Terminated(bool),
    Waited,
    Deleted,
}

/// One stop in progress.
#[derive(Debug)]
pub struct StopSession {
    pub id: String,
    pub grace_ms: u64,
    pub phase: StopPhase,
}

/// The session a stop of `id` begins with.
pub open spec fn stop_begin(id: String, grace_ms: u64) -> StopSession {
    StopSession { id, grace_ms, phase: StopPhase::Fetching }
}

/// One transition of a stop: the next session and the next action.
pub open spec fn stop_next(s: StopSession, input: StopInput) -> (StopSession, StopAction) {
    match (s.phase, input) {
        (StopPhase::Fetching, StopInput::Fetched(record)) => match record {
            Some(c) => match c.pid {
                Some(pid) => (
                    StopSession { phase: StopPhase::Terminating, ..s },
                    StopAction::Terminate { pid },
                ),
                None => (
                    StopSession { phase: StopPhase::Deleting, ..s },
                    StopAction::DeleteRecord { id: s.id },
                ),
            },
            None => (StopSession { phase: StopPhase::Finished, ..s }, StopAction::Finish { stopped: false }),
        },
        (StopPhase::Terminating, StopInput::Terminated(_)) => (
            StopSession { phase: StopPhase::Waiting, ..s },
            StopAction::Wait { ms: s.grace_ms },
        ),
        (StopPhase::Waiting, StopInput::Waited) => (
            StopSession { phase: StopPhase::Deleting, ..s },
            StopAction::DeleteRecord { id: s.id },
        ),
        (StopPhase::Deleting, StopInput::Deleted) => (
            StopSession { phase: StopPhase::Finished, ..s },
            StopAction::Finish { stopped: true },
        ),
        _ => (s, StopAction::Finish { stopped: false }),
    }
}

/// The cache contents after a transition: the worker's process id is
/// forgotten right before its record is deleted.
pub open spec fn registry_next(reg: Map<Seq<char>, u32>, s: StopSession, input: StopInput) -> Map<
    Seq<char>,
    u32,
> {
    if stop_next(s, input).1 is DeleteRecord {
        reg.remove(s.id@)
    } else {
        reg
    }
}

/// The store contents after the driver carries out `a` (see `ConfigStore`).
pub open spec fn store_after(m: Map<Seq<char>, ProxyConfig>, a: StopAction) -> Map<
    Seq<char>,
    ProxyConfig,
> {
    match a {
        StopAction::DeleteRecord { id } => m.remove(id@),
        _ => m,
    }
}

/// Runs a stop from session `s` about to carry out `a`, against store
/// contents `m` and cache contents `reg`, with terminations reported as
/// `delivered`, for at most `fuel` more transitions: the store and cache
/// contents at the end and, once the stop has finished, its result.
pub open spec fn drive_stop(
    s: StopSession,
    a: StopAction,
    m: Map<Seq<char>, ProxyConfig>,
    reg: Map<Seq<char>, u32>,
    delivered: bool,
    fuel: nat,
) -> (Map<Seq<char>, ProxyConfig>, Map<Seq<char>, u32>, Option<bool>)
    decreases fuel,
{
    let m2 = store_after(m, a);
    match a {
        StopAction::Finish { stopped } => (m2, reg, Some(stopped)),
        _ => if fuel == 0 {
            (m2, reg, None)
        } else {
            let input = match a {
                StopAction::FetchRecord { id } => StopInput::Fetched(m2.get(id@)),
                StopAction::Terminate { pid } => StopInput::Terminated(delivered),
                StopAction::Wait { ms } => StopInput::Waited,
                _ => StopInput::Deleted,
            };
            let next = stop_next(s, input);
            drive_stop(next.0, next.1, m2, registry_next(reg, s, input), delivered, (fuel - 1) as nat)
        },
    }
}

/// A whole stop of `id` against store contents `m` and cache contents `reg`.
pub open spec fn stop_outcome(
    m: Map<Seq<char>, ProxyConfig>,
    reg: Map<Seq<char>, u32>,
    id: String,
    grace_ms: u64,
    delivered: bool,
) -> (Map<Seq<char>, ProxyConfig>, Map<Seq<char>, u32>, Option<bool>) {
    drive_stop(stop_begin(id, grace_ms), StopAction::FetchRecord { id }, m, reg, delivered, 4)
}

impl StopSession {
    /// Begins the stop of `id`; the record is read first.
    pub fn begin(id: String, grace_ms: u64) -> (r: (StopSession, StopAction))
        ensures
            r.0 == stop_begin(id, grace_ms),
            r.1 == (StopAction::FetchRecord { id }),
    {
        let action = StopAction::FetchRecord { id: id.clone() };
        (StopSession { id, grace_ms, phase: StopPhase::Fetching }, action)
    }

    /// The store gave `record`. Without a record there is nothing to stop.
    /// A record with a process id has its process signalled; one without is
    /// torn down at once: its cached process id is forgotten and the record
    /// deleted next.
    pub fn on_fetched(&mut self, registry: &mut Registry, record: Option<ProxyConfig>) -> (r:
        StopAction)
        requires
            old(self).phase == StopPhase::Fetching,
            old(registry).wf(),
        ensures
            (*final(self), r) == stop_next(*old(self), StopInput::Fetched(record)),
            final(registry).wf(),
            final(registry)@ == registry_next(old(registry)@, *old(self), StopInput::Fetched(record)),
    {
        match record {
            Some(c) => match c.pid {
                Some(pid) => {
                    self.phase = StopPhase::Terminating;
                    StopAction::Terminate { pid }
                },
                None => {
                    registry.forget(&self.id);
                    self.phase = StopPhase::Deleting;
                    StopAction::DeleteRecord { id: self.id.clone() }
                },
            },
            None => {
                self.phase = StopPhase::Finished;
                StopAction::Finish { stopped: false }
            },
        }
    }

    /// The signal went out, or could not be sent: stopping is best effort
    /// either way, and the grace period follows.
    pub fn on_terminated(&mut self, delivered: bool) -> (r: StopAction)
        requires
            old(self).phase == StopPhase::Terminating,
        ensures
            (*final(self), r) == stop_next(*old(self), StopInput::Terminated(delivered)),
    {
        self.phase = StopPhase::Waiting;
        StopAction::Wait { ms: self.grace_ms }
    }

    /// The grace period is over: the cached process id is forgotten and the
    /// record is deleted next.
    pub fn on_waited(&mut self, registry: &mut Registry) -> (r: StopAction)
        requires
            old(self).phase == StopPhase::Waiting,
            old(registry).wf(),
        ensures
            (*final(self), r) == stop_next(*old(self), StopInput::Waited),
            final(registry).wf(),
            final(registry)@ == registry_next(old(registry)@, *old(self), StopInput::Waited),
    {
        registry.forget(&self.id);
        self.phase = StopPhase::Deleting;
        StopAction::DeleteRecord { id: self.id.clone() }
    }

    /// The record is deleted: the worker is stopped.
    pub fn on_deleted(&mut self) -> (r: StopAction)
        requires
            old(self).phase == StopPhase::Deleting,
        ensures
            (*final(self), r) == stop_next(*old(self), StopInput::Deleted),
    {
        self.phase = StopPhase::Finished;
        StopAction::Finish { stopped: true }
    }
}

/// Stops every worker of `ids` in turn, against store contents `m` and
/// cache contents `reg`; the signal to the `i`-th one is reported as
/// `delivered[i]`. The store and cache contents at the end.
pub open spec fn stop_all_outcome(
    m: Map<Seq<char>, ProxyConfig>,
    reg: Map<Seq<char>, u32>,
    ids: Seq<String>,
    grace_ms: u64,
    delivered: Seq<bool>,
) -> (Map<Seq<char>, ProxyConfig>, Map<Seq<char>, u32>)
    decreases ids.len(),
{
    if ids.len() == 0 {
        (m, reg)
    } else {
        let one = stop_outcome(m, reg, ids[0], grace_ms, delivered[0]);
        stop_all_outcome(one.0, one.1, ids.drop_first(), grace_ms, delivered.drop_first())
    }
}

/// What one stop of a fan-out came to.
#[derive(Debug)]
pub struct StopReport {
    pub id: String,
    pub outcome: Result<bool, SupervisorError>,
}

/// Stops a list of workers one after the other and collects every outcome;
/// a failed stop never keeps the rest from being tried.
#[derive(Debug)]
pub struct StopAll {
    pub ids: Vec<String>,
    pub reports: Vec<StopReport>,
}

impl StopAll {
    pub open spec fn wf(&self) -> bool {
        &&& self.reports@.len() <= self.ids@.len()
        &&& forall|i: int|
            0 <= i < self.reports@.len() ==> #[trigger] self.reports@[i].id == self.ids@[i]
    }

    /// A fan-out over `ids`, in their order.
    pub fn new(ids: Vec<String>) -> (r: StopAll)
        ensures
            r.wf(),
            r.ids == ids,
            r.reports@.len() == 0,
    {
        StopAll { ids, reports: Vec::new() }
    }

    /// The next worker to stop, if any is left.
    pub fn next_id(&self) -> (r: Option<String>)
        requires
            self.wf(),
        ensures
            self.reports@.len() < self.ids@.len() ==> r == Some(self.ids@[self.reports@.len() as int]),
            self.reports@.len() == self.ids@.len() ==> r is None,
    {
        let k = self.reports.len();
        if k < self.ids.len() {
            Some(self.ids[k].clone())
        } else {
            None
        }
    }

    /// Files the outcome of stopping the worker that `next_id` named, and
    /// moves on to the following one, whatever the outcome.
    pub fn record(&mut self, outcome: Result<bool, SupervisorError>)
        requires
            old(self).wf(),
            old(self).reports@.len() < old(self).ids@.len(),
        ensures
            final(self).wf(),
            final(self).ids == old(self).ids,
            final(self).reports@ == old(self).reports@.push(
                StopReport { id: old(self).ids@[old(self).reports@.len() as int], outcome },
            ),
    {
        let k = self.reports.len();
        let id = self.ids[k].clone();
        self.reports.push(StopReport { id, outcome });
    }

    /// Whether every worker has had its stop.
    pub fn is_done(&self) -> (r: bool)
        requires
            self.wf(),
        ensures
            r == (self.reports@.len() == self.ids@.len()),
    {
        self.reports.len() == self.ids.len()
    }

    /// Every outcome, one per worker, in the order of the workers.
    pub fn into_reports(self) -> (r: Vec<StopReport>)
        ensures
            r == self.reports,
    {
        self.reports
    }
}

/// Stopping an identifier that has no record changes nothing and reports
/// that there was nothing to stop; it never fails.
pub proof fn lemma_stop_unknown(
    m: Map<Seq<char>, ProxyConfig>,
    reg: Map<Seq<char>, u32>,
    id: String,
    grace_ms: u64,
    delivered: bool,
)
    requires
        !m.contains_key(id@),
    ensures
        stop_outcome(m, reg, id, grace_ms, delivered) == (m, reg, Some(false)),
{
    reveal_with_fuel(drive_stop, 2);
}

/// After a stop, the store holds no record of the worker and every other
/// record is untouched, whether or not the termination signal could be
/// delivered. A worker that had a record also has its cached process id
/// forgotten, and the stop reports it stopped.
pub proof fn lemma_stop_deletes(
    m: Map<Seq<char>, ProxyConfig>,
    reg: Map<Seq<char>, u32>,
    id: String,
    grace_ms: u64,
    delivered: bool,
)
    ensures
        stop_outcome(m, reg, id, grace_ms, delivered).0 == m.remove(id@),
        !stop_outcome(m, reg, id, grace_ms, delivered).0.contains_key(id@),
        stop_outcome(m, reg, id, grace_ms, delivered).1 == if m.contains_key(id@) {
            reg.remove(id@)
        } else {
            reg
        },
        stop_outcome(m, reg, id, grace_ms, delivered).2 == Some(m.contains_key(id@)),
{
    reveal_with_fuel(drive_stop, 5);
    if !m.contains_key(id@) {
        assert(m.remove(id@) =~= m);
    }
}

/// A second stop right after a first one behaves as a stop of an unknown
/// identifier: it changes nothing and reports nothing to stop.
pub proof fn lemma_stop_twice(
    m: Map<Seq<char>, ProxyConfig>,
    reg: Map<Seq<char>, u32>,
    id: String,
    grace_ms: u64,
    first_delivered: bool,
    second_delivered: bool,
)
    ensures
        ({
            let first = stop_outcome(m, reg, id, grace_ms, first_delivered);
            stop_outcome(first.0, first.1, id, grace_ms, second_delivered) == (
                first.0,
                first.1,
                Some(false),
            )
        }),
{
    lemma_stop_deletes(m, reg, id, grace_ms, first_delivered);
    let first = stop_outcome(m, reg, id, grace_ms, first_delivered);
    lemma_stop_unknown(first.0, first.1, id, grace_ms, second_delivered);
}

proof fn lemma_stop_all_removes(
    m: Map<Seq<char>, ProxyConfig>,
    reg: Map<Seq<char>, u32>,
    ids: Seq<String>,
    grace_ms: u64,
    delivered: Seq<bool>,
)
    requires
        id_views(ids).no_duplicates(),
    ensures
        stop_all_outcome(m, reg, ids, grace_ms, delivered).0 == m.remove_keys(id_views(ids).to_set()),
        stop_all_outcome(m, reg, ids, grace_ms, delivered).1 == reg.remove_keys(
            id_views(ids).to_set().intersect(m.dom()),
        ),
    decreases ids.len(),
{
    let v = id_views(ids);
    if ids.len() == 0 {
        assert(m.remove_keys(v.to_set()) =~= m);
        assert(reg.remove_keys(v.to_set().intersect(m.dom())) =~= reg);
    } else {
        let id = ids[0];
        assert(v[0] == id@);
        lemma_stop_deletes(m, reg, id, grace_ms, delivered[0]);
        let one = stop_outcome(m, reg, id, grace_ms, delivered[0]);
        let m1 = one.0;
        let r1 = one.1;
        let rest = ids.drop_first();
        let rv = id_views(rest);
        assert(rv =~= v.drop_first());
        assert(rv.no_duplicates()) by {
            assert forall|a: int, b: int| 0 <= a < rv.len() && 0 <= b < rv.len() && a != b implies rv[a] != rv[b] by {
                assert(rv[a] == v[a + 1] && rv[b] == v[b + 1]);
            }
        }
        lemma_stop_all_removes(m1, r1, rest, grace_ms, delivered.drop_first());
        assert forall|k: Seq<char>| v.to_set().contains(k) <==> (k == id@ || rv.to_set().contains(k)) by {
            if v.to_set().contains(k) {
                let j = choose|j: int| 0 <= j < v.len() && v[j] == k;
                if j > 0 {
                    assert(rv[j - 1] == k);
                }
            }
            if rv.to_set().contains(k) {
                let j = choose|j: int| 0 <= j < rv.len() && rv[j] == k;
                assert(v[j + 1] == k);
            }
            if k == id@ {
                assert(v[0] == k);
            }
        }
        assert(!rv.to_set().contains(id@)) by {
            if rv.to_set().contains(id@) {
                let j = choose|j: int| 0 <= j < rv.len() && rv[j] == id@;
                assert(v[j + 1] == v[0]);
            }
        }
        assert(m1.remove_keys(rv.to_set()) =~= m.remove_keys(v.to_set()));
        assert(r1.remove_keys(rv.to_set().intersect(m1.dom())) =~= reg.remove_keys(
            v.to_set().intersect(m.dom()),
        ));
    }
}

/// Stopping every listed worker, when the list names each record of the
/// store once, leaves the store empty and the cache without any of the
/// listed workers, other cached entries untouched, whichever termination
/// signals could not be delivered.
pub proof fn lemma_stop_all_empties(
    m: Map<Seq<char>, ProxyConfig>,
    reg: Map<Seq<char>, u32>,
    ids: Seq<String>,
    grace_ms: u64,
    delivered: Seq<bool>,
)
    requires
        id_views(ids).no_duplicates(),
        id_views(ids).to_set() == m.dom(),
    ensures
        stop_all_outcome(m, reg, ids, grace_ms, delivered).0 == Map::<
            Seq<char>,
            ProxyConfig,
        >::empty(),
        stop_all_outcome(m, reg, ids, grace_ms, delivered).1 == reg.remove_keys(m.dom()),
{
    lemma_stop_all_removes(m, reg, ids, grace_ms, delivered);
    assert(m.remove_keys(m.dom()) =~= Map::<Seq<char>, ProxyConfig>::empty());
    assert(m.dom().intersect(m.dom()) =~= m.dom());
}

} // verus!
