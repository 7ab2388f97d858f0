//! The worker pool manager's state and its scale-up / scale-down policy.
//!
//! The pool holds one handle per worker. A handle carries the caller's
//! thread payload `H` and, while the worker has not been told to stop, a
//! shutdown-signal payload `S`. The surrounding event loop owns the real
//! threads, channels and timer; it reports which threads have terminated
//! and whether the shared job queue is full or empty, and this module
//! decides, with a verified contract, what happens to the pool: which
//! handles are pruned, whether a new worker is spawned, and which worker
//! is signaled to drain.

use vstd::prelude::*;

verus! {

/// One worker as the pool sees it: a thread payload and, while the worker
/// is still running normally, the sender of its one-time shutdown signal.
/// A handle whose sender was taken is mid-shutdown (draining).
pub struct WorkerHandle<H, S> {
    pub thread: H,
    pub shutdown: Option<S>,
}

impl<H, S> WorkerHandle<H, S> {
    /// The worker was already told to stop pulling jobs.
    pub open spec fn is_draining(self) -> bool {
        self.shutdown is None
    }

    /// Takes the shutdown sender, leaving the handle mid-shutdown.
    pub fn request_shutdown(&mut self) -> (r: Option<S>)
        ensures
            r == old(self).shutdown,
            final(self).thread == old(self).thread,
            final(self).shutdown is None,
    {
        self.shutdown.take()
    }
}

/// The handle at index `i` is gone and the then-last handle stands in its
/// place: exactly what `Vec::swap_remove` leaves behind.
pub open spec fn swap_removed<T>(s: Seq<T>, i: int) -> Seq<T>
    recommends
        0 <= i < s.len(),
{
    s.update(i, s.last()).drop_last()
}

/// The result of swap-removing, from the highest index downwards, every
/// index `j >= i` whose `fin[j]` flag is set. Removing high indices first
/// keeps the lower indices valid, so this mirrors one pruning pass.
pub open spec fn pruned<T>(s: Seq<T>, fin: Seq<bool>, i: int) -> Seq<T>
    decreases fin.len() - i,
{
    if i < 0 || i >= fin.len() {
        s
    } else {
        let rest = pruned(s, fin, i + 1);
        if fin[i] {
            swap_removed(rest, i)
        } else {
            rest
        }
    }
}

/// How many flags are set at indices `i` and above.
pub open spec fn count_true_from(fin: Seq<bool>, i: int) -> int
    decreases fin.len() - i,
{
    if i < 0 || i >= fin.len() {
        0
    } else {
        (if fin[i] {
            1int
        } else {
            0int
        }) + count_true_from(fin, i + 1)
    }
}

pub proof fn lemma_count_true_from_bounds(fin: Seq<bool>, i: int)
    ensures
        0 <= count_true_from(fin, i),
        0 <= i <= fin.len() ==> count_true_from(fin, i) <= fin.len() - i,
        count_true_from(fin, i) <= fin.len(),
    decreases fin.len() - i,
{
    if 0 <= i < fin.len() {
        lemma_count_true_from_bounds(fin, i + 1);
    }
}

/// What one pruning pass leaves: the lower indices `[0, i)` still hold
/// their original handles, and the length went down by one per set flag.
pub proof fn lemma_pruned<T>(s: Seq<T>, fin: Seq<bool>, i: int)
    requires
        fin.len() == s.len(),
        0 <= i,
    ensures
        pruned(s, fin, i).len() == s.len() - count_true_from(fin, i),
        forall|k: int| 0 <= k < i && k < pruned(s, fin, i).len() ==> pruned(s, fin, i)[k] == s[k],
    decreases fin.len() - i,
{
    if i >= fin.len() {
    } else {
        lemma_pruned(s, fin, i + 1);
        lemma_count_true_from_bounds(fin, i + 1);
    }
}

/// How many handles at indices `i` and above are mid-shutdown.
pub open spec fn num_draining_from<H, S>(s: Seq<WorkerHandle<H, S>>, i: int) -> int
    decreases s.len() - i,
{
    if i < 0 || i >= s.len() {
        0
    } else {
        (if s[i].is_draining() {
            1int
        } else {
            0int
        }) + num_draining_from(s, i + 1)
    }
}

/// How many handles of the whole pool are mid-shutdown.
pub open spec fn num_draining<H, S>(s: Seq<WorkerHandle<H, S>>) -> int {
    num_draining_from(s, 0)
}

pub proof fn lemma_num_draining_from_bounds<H, S>(s: Seq<WorkerHandle<H, S>>, i: int)
    ensures
        0 <= num_draining_from(s, i),
        0 <= i <= s.len() ==> num_draining_from(s, i) <= s.len() - i,
    decreases s.len() - i,
{
    if 0 <= i < s.len() {
        lemma_num_draining_from_bounds(s, i + 1);
    }
}

/// Appending a handle adds its own draining flag to the count.
pub proof fn lemma_num_draining_push<H, S>(s: Seq<WorkerHandle<H, S>>, w: WorkerHandle<H, S>, i: int)
    requires
        0 <= i <= s.len(),
    ensures
        num_draining_from(s.push(w), i) == num_draining_from(s, i) + (if w.is_draining() {
            1int
        } else {
            0int
        }),
    decreases s.len() - i,
{
    let p = s.push(w);
    assert(p.len() == s.len() + 1);
    if i < s.len() {
        lemma_num_draining_push(s, w, i + 1);
        assert(p[i] == s[i]);
        assert(num_draining_from(p, i) == (if p[i].is_draining() {
            1int
        } else {
            0int
        }) + num_draining_from(p, i + 1));
    } else {
        assert(p[i] == w);
        assert(num_draining_from(p, i + 1) == 0);
        assert(num_draining_from(p, i) == (if p[i].is_draining() {
            1int
        } else {
            0int
        }) + num_draining_from(p, i + 1));
        assert(num_draining_from(s, i) == 0);
    }
}

/// Replacing the handle at index `j` swaps its draining flag for the new
/// one's in the count.
pub proof fn lemma_num_draining_update<H, S>(
    s: Seq<WorkerHandle<H, S>>,
    j: int,
    w: WorkerHandle<H, S>,
    i: int,
)
    requires
        0 <= i <= s.len(),
        0 <= j < s.len(),
    ensures
        num_draining_from(s.update(j, w), i) == num_draining_from(s, i) + (if i <= j {
            (if w.is_draining() {
                1int
            } else {
                0int
            }) - (if s[j].is_draining() {
                1int
            } else {
                0int
            })
        } else {
            0int
        }),
    decreases s.len() - i,
{
    if i < s.len() {
        lemma_num_draining_update(s, j, w, i + 1);
        if i == j {
            assert(s.update(j, w)[i] == w);
        } else {
            assert(s.update(j, w)[i] == s[i]);
        }
    }
}

/// Dropping the last handle removes its draining flag from the count.
pub proof fn lemma_num_draining_drop_last<H, S>(s: Seq<WorkerHandle<H, S>>, i: int)
    requires
        0 <= i <= s.len(),
        s.len() > 0,
    ensures
        num_draining_from(s.drop_last(), i) == num_draining_from(s, i) - (if i <= s.len() - 1
            && s.last().is_draining() {
            1int
        } else {
            0int
        }),
    decreases s.len() - i,
{
    let d = s.drop_last();
    assert(d.len() == s.len() - 1);
    if i < s.len() - 1 {
        lemma_num_draining_drop_last(s, i + 1);
        assert(d[i] == s[i]);
        assert(num_draining_from(d, i) == (if d[i].is_draining() {
            1int
        } else {
            0int
        }) + num_draining_from(d, i + 1));
    } else if i == s.len() - 1 {
        assert(num_draining_from(d, i) == 0);
        assert(s[i] == s.last());
        assert(num_draining_from(s, i) == (if s.last().is_draining() {
            1int
        } else {
            0int
        }) + num_draining_from(s, i + 1));
        assert(num_draining_from(s, i + 1) == 0);
    } else {
        assert(num_draining_from(d, i) == 0);
        assert(num_draining_from(s, i) == 0);
    }
}

/// Swap-removing the handle at `i` removes exactly its draining flag.
pub proof fn lemma_num_draining_swap_removed<H, S>(s: Seq<WorkerHandle<H, S>>, i: int)
    requires
        0 <= i < s.len(),
    ensures
        num_draining(swap_removed(s, i)) == num_draining(s) - (if s[i].is_draining() {
            1int
        } else {
            0int
        }),
{
    let u = s.update(i, s.last());
    lemma_num_draining_update(s, i, s.last(), 0);
    lemma_num_draining_drop_last(u, 0);
    if i < s.len() - 1 {
        assert(u.last() == s.last());
    } else {
        assert(u.last() == s.last());
    }
}

/// How many handles that pruning would remove at indices `i` and above are
/// themselves mid-shutdown.
pub open spec fn num_draining_flagged<H, S>(
    s: Seq<WorkerHandle<H, S>>,
    fin: Seq<bool>,
    i: int,
) -> int
    decreases s.len() - i,
{
    if i < 0 || i >= s.len() || i >= fin.len() {
        0
    } else {
        (if fin[i] && s[i].is_draining() {
            1int
        } else {
            0int
        }) + num_draining_flagged(s, fin, i + 1)
    }
}

/// Pruning removes from the draining count exactly the draining handles
/// whose flag was set.
pub proof fn lemma_pruned_num_draining<H, S>(s: Seq<WorkerHandle<H, S>>, fin: Seq<bool>, i: int)
    requires
        fin.len() == s.len(),
        0 <= i,
    ensures
        num_draining(pruned(s, fin, i)) == num_draining(s) - num_draining_flagged(s, fin, i),
    decreases fin.len() - i,
{
    if i >= fin.len() {
    } else {
        lemma_pruned_num_draining(s, fin, i + 1);
        let rest = pruned(s, fin, i + 1);
        lemma_pruned(s, fin, i + 1);
        lemma_count_true_from_bounds(fin, i + 1);
        if fin[i] {
            assert(rest[i] == s[i]);
            lemma_num_draining_swap_removed(rest, i);
        }
    }
}

/// What a reduction tick did to the pool.
pub enum Reduction<S> {
    /// One worker or none is left: the pool never drops below one.
    Kept,
    /// Some worker is already mid-shutdown; at most one drains at a time.
    Pending,
    /// The most recently added worker was told to stop: send on this
    /// channel to deliver the cooperative shutdown signal.
    Signaled(S),
}

/// The set of workers and the configured maximum. The shared job queue's
/// capacity equals `max_threads`; a full queue is the backpressure signal
/// that asks for one more worker.
pub struct Pool<H, S> {
    pub threads: Vec<WorkerHandle<H, S>>,
    pub max_threads: usize,
}

impl<H, S> Pool<H, S> {
    /// The pool never holds more workers than the configured maximum.
    pub open spec fn wf(self) -> bool {
        &&& self.max_threads >= 1
        &&& self.threads@.len() <= self.max_threads
    }

    /// A new worker must be spawned: the pool is empty, or the job queue
    /// is full while the pool has room to grow.
    pub open spec fn spawn_needed(self, queue_full: bool) -> bool {
        self.threads@.len() == 0 || (queue_full && self.threads@.len() < self.max_threads)
    }

    pub fn new(max_threads: usize) -> (r: Self)
        requires
            max_threads >= 1,
        ensures
            r.threads@ =~= Seq::<WorkerHandle<H, S>>::empty(),
            r.max_threads == max_threads,
            r.wf(),
    {
        Pool { threads: Vec::new(), max_threads }
    }

    pub fn is_empty(&self) -> (r: bool)
        ensures
            r == (self.threads@.len() == 0),
    {
        self.threads.is_empty()
    }

    pub fn has_capacity(&self) -> (r: bool)
        ensures
            r == (self.threads@.len() < self.max_threads),
    {
        self.threads.len() < self.max_threads
    }

    /// Decides whether a submission must spawn a worker; the caller asks
    /// after pruning, with the queue's fullness at submission time.
    pub fn should_spawn(&self, queue_full: bool) -> (r: bool)
        ensures
            r == self.spawn_needed(queue_full),
    {
        self.is_empty() || (queue_full && self.has_capacity())
    }

    /// Drops every handle whose thread has terminated. `finished[i]`
    /// reports whether the thread of `threads[i]` has exited; terminated
    /// handles are swap-removed from the highest index downwards.
    pub fn check_threads(&mut self, finished: &Vec<bool>)
        requires
            finished@.len() == old(self).threads@.len(),
        ensures
            final(self).threads@ == pruned(old(self).threads@, finished@, 0),
            final(self).max_threads == old(self).max_threads,
            final(self).threads@.len() == old(self).threads@.len() - count_true_from(
                finished@,
                0,
            ),
            num_draining(final(self).threads@) == num_draining(old(self).threads@)
                - num_draining_flagged(old(self).threads@, finished@, 0),
            old(self).wf() ==> final(self).wf(),
    {
        let ghost orig = self.threads@;
        let ghost fin = finished@;
        let mut i = self.threads.len();
        while i > 0
            invariant
                i <= fin.len() == orig.len(),
                finished@ == fin,
                self.threads@ == pruned(orig, fin, i as int),
                self.max_threads == old(self).max_threads,
            decreases i,
        {
            i = i - 1;
            proof {
                lemma_pruned(orig, fin, i + 1);
                lemma_count_true_from_bounds(fin, i + 1);
            }
            if finished[i] {
                self.threads.swap_remove(i);
            }
        }
        proof {
            lemma_pruned(orig, fin, 0);
            lemma_count_true_from_bounds(fin, 0);
            lemma_pruned_num_draining(orig, fin, 0);
        }
    }

    /// Appends a freshly spawned worker; only legal while the pool is
    /// below its maximum, which `should_spawn` guarantees.
    pub fn push_worker(&mut self, worker: WorkerHandle<H, S>)
        requires
            old(self).threads@.len() < old(self).max_threads,
        ensures
            final(self).threads@ == old(self).threads@.push(worker),
            final(self).max_threads == old(self).max_threads,
            old(self).wf() ==> final(self).wf(),
            num_draining(final(self).threads@) == num_draining(old(self).threads@) + (
            if worker.is_draining() {
                1int
            } else {
                0int
            }),
    {
        proof {
            lemma_num_draining_push(self.threads@, worker, 0);
        }
        self.threads.push(worker);
    }

    /// The scale-down policy, run when the job queue is empty: never
    /// below one worker, never two draining at once, and otherwise the
    /// most recently added worker is signaled to drain.
    pub fn reduce_one(&mut self) -> (r: Reduction<S>)
        ensures
            final(self).max_threads == old(self).max_threads,
            old(self).threads@.len() <= 1 ==> (r is Kept && final(self).threads@ == old(
                self,
            ).threads@),
            old(self).threads@.len() > 1 && num_draining(old(self).threads@) > 0 ==> (r
                is Pending && final(self).threads@ == old(self).threads@),
            old(self).threads@.len() > 1 && num_draining(old(self).threads@) == 0 ==> {
                &&& r == Reduction::<S>::Signaled(old(self).threads@.last().shutdown->Some_0)
                &&& old(self).threads@.last().shutdown is Some
                &&& final(self).threads@ == old(self).threads@.update(
                    old(self).threads@.len() - 1,
                    WorkerHandle {
                        thread: old(self).threads@.last().thread,
                        shutdown: None,
                    },
                )
                &&& num_draining(final(self).threads@) == 1
            },
            final(self).threads@.len() == old(self).threads@.len(),
            old(self).wf() ==> final(self).wf(),
    {
        if self.threads.len() <= 1 {
            return Reduction::Kept;
        }
        let mut j: usize = 0;
        let mut any_draining = false;
        while j < self.threads.len()
            invariant
                j <= self.threads@.len(),
                any_draining == exists|k: int| 0 <= k < j && self.threads@[k].is_draining(),
            decreases self.threads@.len() - j,
        {
            if self.threads[j].shutdown.is_none() {
                any_draining = true;
            }
            j = j + 1;
        }
        proof {
            lemma_num_draining_exists(self.threads@);
        }
        if any_draining {
            return Reduction::Pending;
        }
        let ghost orig = self.threads@;
        let last = self.threads.len() - 1;
        let mut w = self.threads.swap_remove(last);
        let sender = w.request_shutdown();
        self.threads.push(WorkerHandle { thread: w.thread, shutdown: None });
        proof {
            assert(orig[last as int].is_draining() == false);
            assert(self.threads@ =~= orig.update(
                last as int,
                WorkerHandle { thread: orig.last().thread, shutdown: None },
            ));
            lemma_num_draining_update(
                orig,
                last as int,
                WorkerHandle { thread: orig.last().thread, shutdown: None },
                0,
            );
            lemma_num_draining_from_bounds(orig, 0);
        }
        Reduction::Signaled(sender.unwrap())
    }
}

/// The pool as the policy sees it: the worker handles and the configured
/// maximum.
pub struct PoolModel<H, S> {
    pub workers: Seq<WorkerHandle<H, S>>,
    pub max: int,
}

impl<H, S> Pool<H, S> {
    pub open spec fn model(self) -> PoolModel<H, S> {
        PoolModel { workers: self.threads@, max: self.max_threads as int }
    }
}

/// One event the pool manager reacts to. `finished` reports, per worker,
/// whether its thread has terminated by the time the event is handled.
pub enum PoolEvent<H, S> {
    /// A job was submitted; `worker` is the handle that would be pushed
    /// if the policy decides to spawn.
    Job { finished: Seq<bool>, queue_full: bool, worker: WorkerHandle<H, S> },
    /// A reduction tick fired.
    Tick { finished: Seq<bool>, queue_empty: bool },
}

/// The same worker with its shutdown sender taken.
pub open spec fn drained<H, S>(w: WorkerHandle<H, S>) -> WorkerHandle<H, S> {
    WorkerHandle { thread: w.thread, shutdown: None }
}

/// What handling one event does to the pool: exactly the composition of
/// `check_threads` with `should_spawn`/`push_worker` on a job, and of
/// `check_threads` with `reduce_one` on a tick. An event whose `finished`
/// report does not match the pool is ignored.
pub open spec fn pool_step<H, S>(m: PoolModel<H, S>, ev: PoolEvent<H, S>) -> PoolModel<H, S> {
    match ev {
        PoolEvent::Job { finished, queue_full, worker } => {
            if finished.len() != m.workers.len() {
                m
            } else {
                let pw = pruned(m.workers, finished, 0);
                let w2 = if pw.len() == 0 || (queue_full && pw.len() < m.max) {
                    pw.push(worker)
                } else {
                    pw
                };
                PoolModel { workers: w2, max: m.max }
            }
        },
        PoolEvent::Tick { finished, queue_empty } => {
            if finished.len() != m.workers.len() {
                m
            } else {
                let pw = pruned(m.workers, finished, 0);
                let w2 = if queue_empty && pw.len() > 1 && num_draining(pw) == 0 {
                    pw.update(pw.len() - 1, drained(pw.last()))
                } else {
                    pw
                };
                PoolModel { workers: w2, max: m.max }
            }
        },
    }
}

/// The pool after a whole sequence of events.
pub open spec fn run_events<H, S>(m: PoolModel<H, S>, evs: Seq<PoolEvent<H, S>>) -> PoolModel<
    H,
    S,
>
    decreases evs.len(),
{
    if evs.len() == 0 {
        m
    } else {
        run_events(pool_step(m, evs[0]), evs.skip(1))
    }
}

/// A trace only ever pushes freshly spawned workers, which still hold
/// their shutdown sender.
pub open spec fn events_ok<H, S>(evs: Seq<PoolEvent<H, S>>) -> bool {
    forall|i: int|
        0 <= i < evs.len() && evs[i] is Job ==> !(evs[i]->Job_worker.is_draining())
}

/// One step keeps the pool within its maximum and keeps at most one
/// worker mid-shutdown.
pub proof fn lemma_pool_step_preserves_wf<H, S>(m: PoolModel<H, S>, ev: PoolEvent<H, S>)
    requires
        m.max >= 1,
        m.workers.len() <= m.max,
    ensures
        pool_step(m, ev).max == m.max,
        pool_step(m, ev).workers.len() <= m.max,
        num_draining(m.workers) <= 1 && (ev is Job ==> !(ev->Job_worker.is_draining()))
            ==> num_draining(pool_step(m, ev).workers) <= 1,
{
    match ev {
        PoolEvent::Job { finished, queue_full, worker } => {
            if finished.len() == m.workers.len() {
                lemma_pruned(m.workers, finished, 0);
                lemma_count_true_from_bounds(finished, 0);
                lemma_pruned_num_draining(m.workers, finished, 0);
                lemma_num_draining_flagged_bounds(m.workers, finished, 0);
                let pw = pruned(m.workers, finished, 0);
                if pw.len() == 0 || (queue_full && pw.len() < m.max) {
                    lemma_num_draining_push(pw, worker, 0);
                }
            }
        },
        PoolEvent::Tick { finished, queue_empty } => {
            if finished.len() == m.workers.len() {
                lemma_pruned(m.workers, finished, 0);
                lemma_count_true_from_bounds(finished, 0);
                lemma_pruned_num_draining(m.workers, finished, 0);
                lemma_num_draining_flagged_bounds(m.workers, finished, 0);
                let pw = pruned(m.workers, finished, 0);
                if queue_empty && pw.len() > 1 && num_draining(pw) == 0 {
                    lemma_num_draining_update(pw, pw.len() - 1, drained(pw.last()), 0);
                }
            }
        },
    }
}

/// Pruning never removes more draining handles than there are.
pub proof fn lemma_num_draining_flagged_bounds<H, S>(
    s: Seq<WorkerHandle<H, S>>,
    fin: Seq<bool>,
    i: int,
)
    requires
        0 <= i,
    ensures
        0 <= num_draining_flagged(s, fin, i) <= num_draining_from(s, i),
    decreases s.len() - i,
{
    if i < s.len() {
        lemma_num_draining_flagged_bounds(s, fin, i + 1);
    }
}

/// Running a trace and then one more event is one more step.
proof fn lemma_run_events_snoc<H, S>(
    m: PoolModel<H, S>,
    evs: Seq<PoolEvent<H, S>>,
    ev: PoolEvent<H, S>,
)
    ensures
        run_events(m, evs.push(ev)) == pool_step(run_events(m, evs), ev),
    decreases evs.len(),
{
    if evs.len() == 0 {
        assert(evs.push(ev)[0] == ev);
        assert(evs.push(ev).skip(1) =~= Seq::<PoolEvent<H, S>>::empty());
        assert(run_events(m, evs.push(ev)) == run_events(
            pool_step(m, ev),
            Seq::<PoolEvent<H, S>>::empty(),
        ));
    } else {
        assert(evs.push(ev)[0] == evs[0]);
        assert(evs.push(ev).skip(1) =~= evs.skip(1).push(ev));
        lemma_run_events_snoc(pool_step(m, evs[0]), evs.skip(1), ev);
        assert(run_events(m, evs.push(ev)) == run_events(
            pool_step(m, evs[0]),
            evs.skip(1).push(ev),
        ));
        assert(run_events(m, evs) == run_events(pool_step(m, evs[0]), evs.skip(1)));
    }
}

/// However many jobs are submitted, in whatever interleaving with
/// reduction ticks, the number of live workers never exceeds the
/// configured maximum, and at most one worker is mid-shutdown at any
/// time. `k` picks any prefix of the trace: the bound holds at every
/// intermediate moment, not only at the end.
pub proof fn lemma_worker_count_bounded<H, S>(
    m: PoolModel<H, S>,
    evs: Seq<PoolEvent<H, S>>,
    k: int,
)
    requires
        m.max >= 1,
        m.workers.len() <= m.max,
        num_draining(m.workers) <= 1,
        events_ok(evs),
        0 <= k <= evs.len(),
    ensures
        run_events(m, evs.subrange(0, k)).max == m.max,
        run_events(m, evs.subrange(0, k)).workers.len() <= m.max,
        num_draining(run_events(m, evs.subrange(0, k)).workers) <= 1,
    decreases k,
{
    if k == 0 {
        assert(evs.subrange(0, 0) =~= Seq::<PoolEvent<H, S>>::empty());
    } else {
        lemma_worker_count_bounded(m, evs, k - 1);
        assert(evs.subrange(0, k) =~= evs.subrange(0, k - 1).push(evs[k - 1]));
        lemma_run_events_snoc(m, evs.subrange(0, k - 1), evs[k - 1]);
        lemma_pool_step_preserves_wf(run_events(m, evs.subrange(0, k - 1)), evs[k - 1]);
    }
}

/// A pool that starts empty and receives one submission ends with
/// exactly one worker: the freshly pushed one.
pub proof fn lemma_first_submission_spawns_one<H, S>(
    m: PoolModel<H, S>,
    ev: PoolEvent<H, S>,
)
    requires
        m.workers.len() == 0,
        ev is Job,
        ev->Job_finished.len() == 0,
    ensures
        pool_step(m, ev).workers.len() == 1,
        pool_step(m, ev).workers.last() == ev->Job_worker,
{
}

/// The reduction tick in an idle steady state: the queue is empty and
/// exactly the workers already told to drain have exited by now.
pub open spec fn drain_tick<H, S>(m: PoolModel<H, S>) -> PoolEvent<H, S> {
    PoolEvent::Tick {
        finished: Seq::new(m.workers.len(), |i: int| m.workers[i].is_draining()),
        queue_empty: true,
    }
}

/// The pool after `n` idle reduction ticks.
pub open spec fn run_drain_ticks<H, S>(m: PoolModel<H, S>, n: nat) -> PoolModel<H, S>
    decreases n,
{
    if n == 0 {
        m
    } else {
        run_drain_ticks(pool_step(m, drain_tick(m)), (n - 1) as nat)
    }
}

/// Over the drain flags, the pruning counters coincide with the draining
/// count.
proof fn lemma_drain_flag_counts<H, S>(s: Seq<WorkerHandle<H, S>>, i: int)
    requires
        0 <= i,
    ensures
        count_true_from(Seq::new(s.len(), |j: int| s[j].is_draining()), i) == num_draining_from(
            s,
            i,
        ),
        num_draining_flagged(s, Seq::new(s.len(), |j: int| s[j].is_draining()), i)
            == num_draining_from(s, i),
    decreases s.len() - i,
{
    if i < s.len() {
        lemma_drain_flag_counts(s, i + 1);
    }
}

/// One idle reduction tick: the drained workers leave, and if more than
/// one worker remains the policy signals exactly one more.
proof fn lemma_drain_tick_step<H, S>(m: PoolModel<H, S>)
    requires
        m.workers.len() >= 1,
        num_draining(m.workers) <= 1,
        !(m.workers.len() == 1 && num_draining(m.workers) == 1),
    ensures
        ({
            let m2 = pool_step(m, drain_tick(m));
            &&& m2.max == m.max
            &&& m2.workers.len() == m.workers.len() - num_draining(m.workers)
            &&& m2.workers.len() >= 1
            &&& num_draining(m2.workers) == (if m.workers.len() - num_draining(m.workers) > 1 {
                1int
            } else {
                0int
            })
            &&& !(m2.workers.len() == 1 && num_draining(m2.workers) == 1)
        }),
{
    let fin = Seq::new(m.workers.len(), |j: int| m.workers[j].is_draining());
    lemma_pruned(m.workers, fin, 0);
    lemma_drain_flag_counts(m.workers, 0);
    lemma_pruned_num_draining(m.workers, fin, 0);
    lemma_num_draining_from_bounds(m.workers, 0);
    let pw = pruned(m.workers, fin, 0);
    assert(num_draining(pw) == 0);
    if pw.len() > 1 {
        lemma_num_draining_exists(pw);
        assert(!pw.last().is_draining());
        lemma_num_draining_update(pw, pw.len() - 1, drained(pw.last()), 0);
        assert(num_draining(pw.update(pw.len() - 1, drained(pw.last()))) == 1);
    }
}

/// How many idle ticks it takes this pool to settle at one worker.
pub open spec fn ticks_to_floor<H, S>(m: PoolModel<H, S>) -> int {
    if num_draining(m.workers) >= 1 {
        m.workers.len() - 1
    } else if m.workers.len() == 1 {
        0
    } else {
        m.workers.len() as int
    }
}

/// The scale-down policy never empties the pool: starting from any
/// number of workers of which at most the signaled one is draining,
/// repeated reduction ticks over an empty queue keep at least one worker
/// alive, and once they have settled, exactly one.
pub proof fn lemma_reduction_keeps_one_worker<H, S>(m: PoolModel<H, S>, n: nat)
    requires
        m.workers.len() >= 1,
        num_draining(m.workers) <= 1,
        !(m.workers.len() == 1 && num_draining(m.workers) == 1),
    ensures
        run_drain_ticks(m, n).workers.len() >= 1,
        n >= ticks_to_floor(m) ==> run_drain_ticks(m, n).workers.len() == 1,
    decreases n,
{
    lemma_num_draining_from_bounds(m.workers, 0);
    if n > 0 {
        lemma_drain_tick_step(m);
        let m2 = pool_step(m, drain_tick(m));
        lemma_reduction_keeps_one_worker(m2, (n - 1) as nat);
        lemma_num_draining_from_bounds(m2.workers, 0);
    }
}

/// A pool has no mid-shutdown worker exactly when its draining count is
/// zero.
pub proof fn lemma_num_draining_exists<H, S>(s: Seq<WorkerHandle<H, S>>)
    ensures
        (num_draining(s) > 0) == (exists|k: int| 0 <= k < s.len() && s[k].is_draining()),
{
    lemma_num_draining_exists_from(s, 0);
}

proof fn lemma_num_draining_exists_from<H, S>(s: Seq<WorkerHandle<H, S>>, i: int)
    requires
        0 <= i <= s.len(),
    ensures
        (num_draining_from(s, i) > 0) == (exists|k: int| i <= k < s.len() && s[k].is_draining()),
    decreases s.len() - i,
{
    lemma_num_draining_from_bounds(s, i);
    if i < s.len() {
        lemma_num_draining_exists_from(s, i + 1);
        lemma_num_draining_from_bounds(s, i + 1);
    }
}

} // verus!
