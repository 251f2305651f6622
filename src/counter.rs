//! A counter that workers increment one step at a time.
//!
//! The counter itself is a plain value. Sharing it between threads is done by
//! putting it behind a lock; every acquisition of the lock performs exactly one
//! increment, so the lock turns concurrent workers into a sequence of
//! increments. `WorkerCounter` records which workers have taken their turn, so
//! that its value is always the number of completed increments, whatever
//! their order.
use vstd::prelude::*;

verus! {

/// A non-negative counter.
pub struct Counter {
    value: u64,
}

impl View for Counter {
    type V = nat;

    closed spec fn view(&self) -> nat {
        self.value as nat
    }
}

impl Counter {
    /// A counter at zero.
    pub fn new() -> (r: Counter)
        ensures
            r@ == 0,
    {
        Counter { value: 0 }
    }

    /// Adds one.
    pub fn increment(&mut self)
        requires
            old(self)@ < u64::MAX,
        ensures
            final(self)@ == old(self)@ + 1,
    {
        self.value = self.value + 1;
    }

    /// The current value.
    pub fn read(&self) -> (r: u64)
        ensures
            r == self@,
    {
        self.value
    }
}

/// How many entries of `done` are set.
pub open spec fn count_done(done: Seq<bool>) -> nat
    decreases done.len(),
{
    if done.len() == 0 {
        0
    } else {
        count_done(done.drop_last()) + if done.last() {
            1nat
        } else {
            0nat
        }
    }
}

proof fn lemma_count_done_bounded(done: Seq<bool>)
    ensures
        count_done(done) <= done.len(),
        count_done(done) == done.len() <==> forall|i: int| 0 <= i < done.len() ==> #[trigger] done[i],
    decreases done.len(),
{
    if done.len() > 0 {
        lemma_count_done_bounded(done.drop_last());
        if forall|i: int| 0 <= i < done.len() ==> #[trigger] done[i] {
            assert forall|i: int| 0 <= i < done.drop_last().len() implies #[trigger] done.drop_last()[i] by {
                assert(done[i]);
            }
        }
        if forall|i: int| 0 <= i < done.drop_last().len() ==> #[trigger] done.drop_last()[i] {
            if done.last() {
                assert forall|i: int| 0 <= i < done.len() implies #[trigger] done[i] by {
                    if i < done.len() - 1 {
                        assert(done.drop_last()[i]);
                    }
                }
            }
        }
    }
}

proof fn lemma_count_done_set(done: Seq<bool>, w: int)
    requires
        0 <= w < done.len(),
        !done[w],
    ensures
        count_done(done.update(w, true)) == count_done(done) + 1,
    decreases done.len(),
{
    let after = done.update(w, true);
    if w == done.len() - 1 {
        assert(after.drop_last() =~= done.drop_last());
    } else {
        lemma_count_done_set(done.drop_last(), w);
        assert(after.drop_last() =~= done.drop_last().update(w, true));
    }
}

/// A counter shared by a fixed set of workers, numbered from zero, each of
/// whom increments it once. It records who has done so: its value is always
/// the number of workers that have, so no increment is lost or applied twice.
pub struct WorkerCounter {
    counter: Counter,
    done: Vec<bool>,
}

impl WorkerCounter {
    /// How many workers share the counter.
    pub closed spec fn workers(&self) -> nat {
        self.done@.len()
    }

    /// Whether worker `w` has incremented the counter.
    pub closed spec fn has_incremented(&self, w: int) -> bool {
        self.done@[w]
    }

    /// How many workers have incremented the counter.
    pub closed spec fn completed(&self) -> nat {
        count_done(self.done@)
    }

    /// The counter's value.
    pub closed spec fn value(&self) -> nat {
        self.counter@
    }

    /// The value is the number of workers that have incremented.
    pub closed spec fn wf(&self) -> bool {
        self.counter@ == count_done(self.done@)
    }

    /// A counter at zero for `workers` workers, none of whom has incremented
    /// it yet.
    pub fn new(workers: usize) -> (r: WorkerCounter)
        ensures
            r.wf(),
            r.workers() == workers,
            r.value() == 0,
            forall|w: int| 0 <= w < workers ==> !r.has_incremented(w),
    {
        let mut done: Vec<bool> = Vec::new();
        let mut k: usize = 0;
        while k < workers
            invariant
                k <= workers,
                done@.len() == k,
                forall|w: int| 0 <= w < k ==> !done@[w],
                count_done(done@) == 0,
            decreases workers - k,
        {
            let ghost before = done@;
            done.push(false);
            assert(done@.drop_last() =~= before);
            k = k + 1;
        }
        WorkerCounter { counter: Counter::new(), done }
    }

    /// Whether worker `w` has incremented the counter.
    pub fn has_worker_incremented(&self, w: usize) -> (r: bool)
        requires
            w < self.workers(),
        ensures
            r == self.has_incremented(w as int),
    {
        self.done[w]
    }

    /// Worker `w` increments the counter, which it has not done before.
    pub fn increment_for(&mut self, w: usize)
        requires
            old(self).wf(),
            w < old(self).workers(),
            !old(self).has_incremented(w as int),
        ensures
            final(self).wf(),
            final(self).workers() == old(self).workers(),
            final(self).value() == old(self).value() + 1,
            final(self).has_incremented(w as int),
            forall|v: int|
                0 <= v < old(self).workers() && v != w ==> final(self).has_incremented(v)
                    == old(self).has_incremented(v),
    {
        let n = self.done.len();
        proof {
            lemma_count_done_bounded(self.done@);
            lemma_count_done_set(self.done@, w as int);
            assert(!(forall|i: int| 0 <= i < self.done@.len() ==> #[trigger] self.done@[i]));
            assert(n == self.done@.len());
            assert(usize::MAX <= u64::MAX);
        }
        self.counter.increment();
        self.done.set(w, true);
    }

    /// The counter's value.
    pub fn read(&self) -> (r: u64)
        ensures
            r == self.value(),
    {
        self.counter.read()
    }
}

/// Once every worker has incremented the counter, its value is the number
/// of workers, whatever the order in which they took their turn.
pub proof fn lemma_all_done_reads_worker_count(c: WorkerCounter)
    requires
        c.wf(),
        forall|w: int| 0 <= w < c.workers() ==> c.has_incremented(w),
    ensures
        c.value() == c.workers(),
{
    lemma_count_done_bounded(c.done@);
    assert forall|i: int| 0 <= i < c.done@.len() implies #[trigger] c.done@[i] by {
        assert(c.has_incremented(i));
    }
}

/// Runs `workers` workers against one counter that starts at zero, each of
/// them incrementing it exactly once, and returns what the coordinator reads
/// once all of them are done.
pub fn run_workers(workers: usize) -> (r: u64)
    ensures
        r == workers,
{
    let mut counter = WorkerCounter::new(workers);
    let mut w: usize = 0;
    while w < workers
        invariant
            w <= workers,
            counter.wf(),
            counter.workers() == workers,
            forall|v: int| 0 <= v < w ==> counter.has_incremented(v),
            forall|v: int| w <= v < workers ==> !counter.has_incremented(v),
        decreases workers - w,
    {
        counter.increment_for(w);
        w = w + 1;
    }
    proof {
        lemma_all_done_reads_worker_count(counter);
    }
    counter.read()
}

} // verus!
