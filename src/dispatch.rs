//! The decisions of a fixed-size worker pool: a first-in first-out queue of
//! jobs shared by the workers, closed once on shutdown, after which the
//! workers are joined one by one in index order.
//!
//! The queue holds the jobs; threads, locking and waiting are left to the
//! caller, which keeps one `DispatchQueue` behind a mutex and performs the
//! step that each call returns.
use std::collections::VecDeque;
use vstd::prelude::*;

verus! {

/// What a worker is to do after asking the queue for work.
pub enum Take<T> {
    /// Run this job to completion, then ask again.
    Run(T),
    /// No job is queued but more may come: wait for a submission.
    Wait,
    /// The queue is closed and empty: leave the loop.
    Exit,
}

/// The abstract state of a dispatch queue.
pub struct DispatchView<T> {
    /// Every job ever submitted, in submission order.
    pub submitted: Seq<T>,
    /// Every job handed to a worker, in the order handed out.
    pub delivered: Seq<T>,
    /// The jobs waiting for a worker, oldest first.
    pub pending: Seq<T>,
    /// Whether submissions are still accepted.
    pub open: bool,
    /// The number of workers of the pool.
    pub workers: nat,
    /// How many workers have been handed out for joining.
    pub joined: nat,
}

impl<T> DispatchView<T> {
    /// Every submitted job is either delivered or pending, in order; the
    /// pool has a worker; joining starts only once the queue is closed.
    pub open spec fn wf(self) -> bool {
        &&& self.submitted == self.delivered + self.pending
        &&& self.workers > 0
        &&& self.joined <= self.workers
        &&& self.joined > 0 ==> !self.open
    }
}

/// The state of a new pool with `workers` workers.
pub open spec fn fresh_state<T>(workers: nat) -> DispatchView<T> {
    DispatchView {
        submitted: Seq::empty(),
        delivered: Seq::empty(),
        pending: Seq::empty(),
        open: true,
        workers,
        joined: 0,
    }
}

/// The state after `job` is submitted.
pub open spec fn submit_step<T>(v: DispatchView<T>, job: T) -> DispatchView<T> {
    DispatchView { submitted: v.submitted.push(job), pending: v.pending.push(job), ..v }
}

/// The state after a worker asks for work, and what it is told to do.
pub open spec fn take_step<T>(v: DispatchView<T>) -> (DispatchView<T>, Take<T>) {
    if v.pending.len() > 0 {
        (
            DispatchView {
                delivered: v.delivered.push(v.pending[0]),
                pending: v.pending.drop_first(),
                ..v
            },
            Take::Run(v.pending[0]),
        )
    } else if v.open {
        (v, Take::Wait)
    } else {
        (v, Take::Exit)
    }
}

/// The state after submissions are closed.
pub open spec fn close_step<T>(v: DispatchView<T>) -> DispatchView<T> {
    DispatchView { open: false, ..v }
}

/// The state after asking which worker to join next, and the answer.
pub open spec fn join_step<T>(v: DispatchView<T>) -> (DispatchView<T>, Option<nat>) {
    if v.joined < v.workers {
        (DispatchView { joined: v.joined + 1, ..v }, Some(v.joined))
    } else {
        (v, None)
    }
}

/// The state after `n` workers in turn ask for work.
pub open spec fn take_steps<T>(v: DispatchView<T>, n: nat) -> DispatchView<T>
    decreases n,
{
    if n == 0 {
        v
    } else {
        take_steps(take_step(v).0, (n - 1) as nat)
    }
}

/// The state after each of `jobs` is submitted, in order.
pub open spec fn submit_all<T>(v: DispatchView<T>, jobs: Seq<T>) -> DispatchView<T>
    decreases jobs.len(),
{
    if jobs.len() == 0 {
        v
    } else {
        submit_step(submit_all(v, jobs.drop_last()), jobs.last())
    }
}

/// The state after `n` questions for the next worker to join.
pub open spec fn join_steps<T>(v: DispatchView<T>, n: nat) -> DispatchView<T>
    decreases n,
{
    if n == 0 {
        v
    } else {
        join_steps(join_step(v).0, (n - 1) as nat)
    }
}

/// Every step keeps the queue well formed: whatever the interleaving of
/// submissions, takes, the close and the joins, each submitted job is
/// delivered at most once, in submission order, or still pending.
pub proof fn lemma_steps_keep_wf<T>(v: DispatchView<T>, job: T)
    requires
        v.wf(),
    ensures
        v.open ==> submit_step(v, job).wf(),
        take_step(v).0.wf(),
        close_step(v).wf(),
        !v.open ==> join_step(v).0.wf(),
{
    assert(v.open ==> submit_step(v, job).submitted =~= submit_step(v, job).delivered
        + submit_step(v, job).pending);
    if v.pending.len() > 0 {
        assert(take_step(v).0.submitted =~= take_step(v).0.delivered + take_step(v).0.pending);
    }
}

/// A worker is told to exit only when every job ever submitted has been
/// delivered, each exactly once and in submission order.
pub proof fn lemma_exit_after_all_delivered<T>(v: DispatchView<T>)
    requires
        v.wf(),
        take_step(v).1 is Exit,
    ensures
        v.delivered == v.submitted,
        v.pending.len() == 0,
{
    assert(v.delivered =~= v.delivered + v.pending);
}

/// Once the queue is closed, as many takes as there are pending jobs hand out
/// all of them, oldest first, and the next take tells the worker to exit: no
/// job submitted before shutdown is left unrun.
pub proof fn lemma_close_drains<T>(v: DispatchView<T>)
    requires
        v.wf(),
        !v.open,
    ensures
        take_steps(v, v.pending.len()).wf(),
        take_steps(v, v.pending.len()).delivered == v.submitted,
        take_steps(v, v.pending.len()).delivered == v.delivered + v.pending,
        take_step(take_steps(v, v.pending.len())).1 is Exit,
    decreases v.pending.len(),
{
    if v.pending.len() == 0 {
        assert(v.delivered =~= v.delivered + v.pending);
    } else {
        let w = take_step(v).0;
        lemma_steps_keep_wf(v, v.pending[0]);
        lemma_close_drains(w);
        assert(w.pending.len() == v.pending.len() - 1);
        assert(take_steps(v, v.pending.len()) == take_steps(w, w.pending.len()));
        assert(w.delivered + w.pending =~= v.delivered + v.pending);
    }
}

/// Submitting jobs to a new pool of any positive size, then shutting it down,
/// delivers exactly the submitted jobs, each once, in submission order, before
/// any worker is told to exit.
pub proof fn lemma_every_job_runs_once<T>(workers: nat, jobs: Seq<T>)
    requires
        workers > 0,
    ensures
        ({
            let closed = close_step(submit_all(fresh_state::<T>(workers), jobs));
            let drained = take_steps(closed, jobs.len());
            &&& drained.delivered == jobs
            &&& take_step(drained).1 is Exit
        }),
{
    lemma_submit_all_fresh(workers, jobs);
    let closed = close_step(submit_all(fresh_state::<T>(workers), jobs));
    lemma_close_drains(closed);
}

proof fn lemma_submit_all_fresh<T>(workers: nat, jobs: Seq<T>)
    requires
        workers > 0,
    ensures
        ({
            let v = submit_all(fresh_state::<T>(workers), jobs);
            &&& v.wf()
            &&& v.open
            &&& v.submitted == jobs
            &&& v.pending == jobs
            &&& v.delivered == Seq::<T>::empty()
        }),
    decreases jobs.len(),
{
    if jobs.len() > 0 {
        lemma_submit_all_fresh(workers, jobs.drop_last());
        assert(jobs.drop_last().push(jobs.last()) =~= jobs);
        lemma_steps_keep_wf(submit_all(fresh_state::<T>(workers), jobs.drop_last()), jobs.last());
    } else {
        assert(jobs =~= Seq::<T>::empty());
    }
}

/// After the close, joining names the workers `0, 1, ..` in index order, each
/// once, and then names no more.
pub proof fn lemma_joins_in_index_order<T>(v: DispatchView<T>, i: nat)
    requires
        v.wf(),
        !v.open,
        v.joined == 0,
        i <= v.workers,
    ensures
        join_steps(v, i).joined == i,
        join_steps(v, i).workers == v.workers,
        !join_steps(v, i).open,
        join_steps(v, i).wf(),
        i < v.workers ==> join_step(join_steps(v, i)).1 == Some(i),
        i == v.workers ==> join_step(join_steps(v, i)).1 is None,
    decreases i,
{
    if i > 0 {
        lemma_joins_in_index_order(v, (i - 1) as nat);
        lemma_join_steps_split(v, (i - 1) as nat);
    }
}

proof fn lemma_join_steps_split<T>(v: DispatchView<T>, n: nat)
    ensures
        join_steps(v, n + 1) == join_step(join_steps(v, n)).0,
    decreases n,
{
    let w = join_step(v).0;
    assert(join_steps(v, n + 1) == join_steps(w, n));
    if n > 0 {
        lemma_join_steps_split(w, (n - 1) as nat);
        assert(join_steps(v, n) == join_steps(w, (n - 1) as nat));
    }
}

/// A shared job queue for a pool of a fixed number of workers.
pub struct DispatchQueue<T> {
    pending: VecDeque<T>,
    open: bool,
    workers: usize,
    joined: usize,
    submitted: Ghost<Seq<T>>,
    delivered: Ghost<Seq<T>>,
}

impl<T> View for DispatchQueue<T> {
    type V = DispatchView<T>;

    closed spec fn view(&self) -> DispatchView<T> {
        DispatchView {
            submitted: self.submitted@,
            delivered: self.delivered@,
            pending: self.pending@,
            open: self.open,
            workers: self.workers as nat,
            joined: self.joined as nat,
        }
    }
}

impl<T> DispatchQueue<T> {
    /// Creates the queue of a pool of `workers` workers, open and empty.
    /// A pool of no workers is a programming error.
    pub fn new(workers: usize) -> (r: Self)
        requires
            workers > 0,
        ensures
            r@ == fresh_state::<T>(workers as nat),
            r@.wf(),
    {
        DispatchQueue {
            pending: VecDeque::new(),
            open: true,
            workers,
            joined: 0,
            submitted: Ghost(Seq::empty()),
            delivered: Ghost(Seq::empty()),
        }
    }

    /// Whether submissions are still accepted.
    pub fn is_open(&self) -> (r: bool)
        ensures
            r == self@.open,
    {
        self.open
    }

    /// The number of workers of the pool.
    pub fn workers(&self) -> (r: usize)
        ensures
            r == self@.workers,
    {
        self.workers
    }

    /// Queues `job` behind every job already waiting. Submitting after
    /// shutdown has begun is a programming error.
    pub fn submit(&mut self, job: T)
        requires
            old(self)@.wf(),
            old(self)@.open,
        ensures
            final(self)@ == submit_step(old(self)@, job),
            final(self)@.wf(),
    {
        proof {
            self.submitted@ = self.submitted@.push(job);
        }
        self.pending.push_back(job);
        assert(self.submitted@ =~= self.delivered@ + self.pending@);
    }

    /// Hands the oldest waiting job to the asking worker, tells it to wait
    /// when none is queued and the queue is open, and to exit when the queue
    /// is closed and empty.
    pub fn take(&mut self) -> (r: Take<T>)
        requires
            old(self)@.wf(),
        ensures
            (final(self)@, r) == take_step(old(self)@),
            final(self)@.wf(),
    {
        match self.pending.pop_front() {
            Some(job) => {
                proof {
                    self.delivered@ = self.delivered@.push(job);
                }
                assert(self.submitted@ =~= self.delivered@ + self.pending@);
                assert(self.pending@ =~= old(self)@.pending.drop_first());
                Take::Run(job)
            },
            None => {
                if self.open {
                    Take::Wait
                } else {
                    Take::Exit
                }
            },
        }
    }

    /// Stops accepting submissions. Jobs already queued stay queued.
    pub fn close(&mut self)
        requires
            old(self)@.wf(),
        ensures
            final(self)@ == close_step(old(self)@),
            final(self)@.wf(),
    {
        self.open = false;
    }

    /// Names the next worker to join, in index order, or `None` once every
    /// worker has been named. Joining begins only after the queue is closed.
    pub fn next_to_join(&mut self) -> (r: Option<usize>)
        requires
            old(self)@.wf(),
            !old(self)@.open,
        ensures
            (final(self)@, match r {
                Some(i) => Some(i as nat),
                None => None,
            }) == join_step(old(self)@),
            final(self)@.wf(),
    {
        if self.joined < self.workers {
            let i = self.joined;
            self.joined = self.joined + 1;
            Some(i)
        } else {
            None
        }
    }
}

} // verus!
