use vstd::prelude::*;

verus! {

// The batch orchestrator's decisions.  Targets are dispatched in their
// configured order, never more than the configured limit at once, and the
// first failure poisons the batch: nothing further is dispatched and the
// batch as a whole reports failure.  The unverified runner asks the
// scheduler before starting a download and reports back when one ends.

/// One named download: the unique name it is configured under and the
/// URL it is fetched from.  Read once from configuration, never changed.
pub struct DownloadTarget {
    pub name: String,
    pub url: String,
}

impl DownloadTarget {
    pub fn new(name: String, url: String) -> (r: DownloadTarget)
        ensures
            r.name == name,
            r.url == url,
    {
        DownloadTarget { name, url }
    }
}

impl Clone for DownloadTarget {
    fn clone(&self) -> (r: DownloadTarget)
        ensures
            r == *self,
    {
        DownloadTarget { name: self.name.clone(), url: self.url.clone() }
    }
}

/// A batch's settings: how many downloads may run at once (at least one),
/// where the files go, and that already-present files are skipped — in
/// this design always.
pub struct BatchConfig {
    pub concurrency_limit: u8,
    pub destination_dir: String,
    pub skip_existing: bool,
}

impl BatchConfig {
    pub fn new(concurrency_limit: u8, destination_dir: String) -> (r: BatchConfig)
        requires
            concurrency_limit >= 1,
        ensures
            r.concurrency_limit == concurrency_limit,
            r.destination_dir == destination_dir,
            r.skip_existing,
    {
        BatchConfig { concurrency_limit, destination_dir, skip_existing: true }
    }
}

/// The scheduler of one batch of `total` targets, dispatched in index
/// order: `next` indices are already handed out, `in_flight` of them have
/// not yet reported back, and `failed` says whether any one of them
/// failed.
pub struct Scheduler {
    pub total: usize,
    pub next: usize,
    pub in_flight: usize,
    pub limit: u8,
    pub failed: bool,
}

/// What the runner reports to the scheduler.
pub enum BatchEvent {
    /// The runner asked for work (and was given some if the scheduler
    /// allowed it).
    Dispatch,
    /// One dispatched download ended, successfully or not.
    TaskDone(bool),
}

/// Whether the scheduler may hand out another target: none yet failed,
/// targets remain, and a pool slot is free.
pub open spec fn can_dispatch(s: Scheduler) -> bool {
    !s.failed && s.next < s.total && s.in_flight < s.limit
}

/// The scheduler after one event.  An impossible completion (nothing in
/// flight) changes nothing.
pub open spec fn spec_event(s: Scheduler, e: BatchEvent) -> Scheduler {
    match e {
        BatchEvent::Dispatch => if can_dispatch(s) {
            Scheduler {
                next: (s.next + 1) as usize,
                in_flight: (s.in_flight + 1) as usize,
                ..s
            }
        } else {
            s
        },
        BatchEvent::TaskDone(ok) => if s.in_flight >= 1 {
            Scheduler { in_flight: (s.in_flight - 1) as usize, failed: s.failed || !ok, ..s }
        } else {
            s
        },
    }
}

/// The scheduler after a whole run of events, first event first.
pub open spec fn run_events(s: Scheduler, evs: Seq<BatchEvent>) -> Scheduler
    decreases evs.len(),
{
    if evs.len() == 0 {
        s
    } else {
        spec_event(run_events(s, evs.drop_last()), evs.last())
    }
}

impl Scheduler {
    /// The scheduler's invariant: a limit of at least one, never more in
    /// flight than the limit allows, never more than were dispatched, and
    /// never more dispatched than exist.
    pub open spec fn wf(&self) -> bool {
        1 <= self.limit && self.in_flight <= self.limit && self.in_flight <= self.next
            && self.next <= self.total
    }

    /// A fresh scheduler for `total` targets under `limit`.
    pub fn new(limit: u8, total: usize) -> (r: Scheduler)
        requires
            limit >= 1,
        ensures
            r.wf(),
            r == (Scheduler { total, next: 0, in_flight: 0, limit, failed: false }),
    {
        Scheduler { total, next: 0, in_flight: 0, limit, failed: false }
    }

    /// Hands out the next target's index, exactly when nothing failed
    /// yet, targets remain, and fewer than `limit` are in flight; the
    /// batch is dispatched in index order.
    pub fn try_dispatch(&mut self) -> (r: Option<usize>)
        requires
            old(self).wf(),
        ensures
            final(self).wf(),
            *final(self) == spec_event(*old(self), BatchEvent::Dispatch),
            r is Some <==> can_dispatch(*old(self)),
            r matches Some(idx) ==> idx == old(self).next,
            r is None ==> *final(self) == *old(self),
    {
        if !self.failed && self.next < self.total && (self.in_flight as u8) < self.limit {
            let idx: usize = self.next;
            self.next = self.next + 1;
            self.in_flight = self.in_flight + 1;
            Some(idx)
        } else {
            None
        }
    }

    /// Takes one download's completion back.  A failure marks the whole
    /// batch failed, and the mark is never cleared.
    pub fn task_done(&mut self, ok: bool)
        requires
            old(self).wf(),
            old(self).in_flight >= 1,
        ensures
            final(self).wf(),
            *final(self) == spec_event(*old(self), BatchEvent::TaskDone(ok)),
            final(self).failed == (old(self).failed || !ok),
            final(self).in_flight == old(self).in_flight - 1,
    {
        self.in_flight = self.in_flight - 1;
        if !ok {
            self.failed = true;
        }
    }

    /// Whether the batch is over: nothing in flight, and either a failure
    /// ended it early or every target was dispatched.
    pub fn is_finished(&self) -> (r: bool)
        ensures
            r == (self.in_flight == 0 && (self.failed || self.next == self.total)),
    {
        self.in_flight == 0 && (self.failed || self.next == self.total)
    }

    /// Whether the batch as a whole succeeded: exactly when no download
    /// failed.
    pub fn batch_ok(&self) -> (r: bool)
        ensures
            r == !self.failed,
    {
        !self.failed
    }
}

/// The concurrency bound: starting from a well-formed scheduler, at every
/// point of every run — whatever the runner does, in whatever order — no
/// more than `limit` downloads are in flight at once.
pub proof fn lemma_concurrency_bound(s: Scheduler, evs: Seq<BatchEvent>)
    requires
        s.wf(),
    ensures
        forall|i: int|
            0 <= i <= evs.len() ==> (#[trigger] run_events(s, evs.take(i))).in_flight
                <= run_events(s, evs.take(i)).limit,
    decreases evs.len(),
{
    lemma_run_events_wf(s, evs);
    assert forall|i: int| 0 <= i <= evs.len() implies (#[trigger] run_events(
        s,
        evs.take(i),
    )).in_flight <= run_events(s, evs.take(i)).limit by {
        lemma_run_events_wf(s, evs.take(i));
    }
}

/// A whole run preserves the scheduler's invariant.
pub proof fn lemma_run_events_wf(s: Scheduler, evs: Seq<BatchEvent>)
    requires
        s.wf(),
    ensures
        run_events(s, evs).wf(),
    decreases evs.len(),
{
    if evs.len() > 0 {
        lemma_run_events_wf(s, evs.drop_last());
    }
}

/// Whether a run of events can actually happen against the scheduler's
/// interface: a completion is only ever reported while something is in
/// flight (as `task_done` demands of its callers).
pub open spec fn legal_run(s: Scheduler, evs: Seq<BatchEvent>) -> bool
    decreases evs.len(),
{
    if evs.len() == 0 {
        true
    } else {
        legal_run(s, evs.drop_last()) && (evs.last() matches BatchEvent::TaskDone(_)
            ==> run_events(s, evs.drop_last()).in_flight >= 1)
    }
}

/// Fail-fast: a batch run reports failure exactly when some download in
/// it failed — one failing target in a batch of any size makes the whole
/// run fail, and a run with no failing download never does.
pub proof fn lemma_fail_fast(s: Scheduler, evs: Seq<BatchEvent>)
    requires
        s.wf(),
        legal_run(s, evs),
    ensures
        run_events(s, evs).failed == (s.failed || exists|i: int|
            0 <= i < evs.len() && evs[i] == BatchEvent::TaskDone(false)),
    decreases evs.len(),
{
    if evs.len() > 0 {
        lemma_fail_fast(s, evs.drop_last());
        let prev = run_events(s, evs.drop_last());
        if evs.last() == BatchEvent::TaskDone(false) {
            assert(prev.in_flight >= 1);
            assert(run_events(s, evs).failed);
            assert(evs[evs.len() - 1] == BatchEvent::TaskDone(false));
        } else {
            assert(run_events(s, evs).failed == prev.failed);
            if prev.failed {
                if !s.failed {
                    let i = choose|i: int|
                        0 <= i < evs.drop_last().len() && evs.drop_last()[i]
                            == BatchEvent::TaskDone(false);
                    assert(evs[i] == BatchEvent::TaskDone(false));
                }
            } else {
                assert forall|i: int| 0 <= i < evs.len() implies evs[i] != BatchEvent::TaskDone(
                    false,
                ) by {
                    if i < evs.len() - 1 {
                        assert(evs.drop_last()[i] == evs[i]);
                    } else {
                        assert(evs[i] == evs.last());
                    }
                }
            }
        }
    }
}

/// Once a batch failed, nothing more is dispatched: a failed scheduler
/// hands out no further work, whatever else still happens.
pub proof fn lemma_no_dispatch_after_failure(s: Scheduler, e: BatchEvent)
    requires
        s.failed,
    ensures
        spec_event(s, e).failed,
        e == BatchEvent::Dispatch ==> spec_event(s, e) == s,
{
}

} // verus!
