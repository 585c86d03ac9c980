//! Coordination core of the fixed-size worker pool.
//!
//! The pool owns a fixed set of workers and a single FIFO intake of jobs.
//! A job is identified here by a plain id; the callable it stands for is
//! opaque to the pool, which only routes it. The model keeps, besides the
//! queue itself, the full history of accepted and handed-out jobs, so the
//! delivery guarantees (nothing lost, nothing run twice, submission order
//! kept) are stated and proved over that history.

use vstd::prelude::*;
use vstd::assert_seqs_equal;

verus! {

/// One worker of the pool, identified by its index. The thread that drains
/// the queue on its behalf lives outside this model; the worker's whole
/// draining step is `ThreadPool::worker_step`.
pub struct Worker {
    pub id: usize,
}

impl Worker {
    pub fn new(id: usize) -> (w: Worker)
        ensures
            w.id == id,
    {
        Worker { id }
    }
}

/// The error a submission gets once the pool's intake has been closed.
#[derive(Clone, Copy, Debug, PartialEq, Eq, Structural)]
pub enum SubmitError {
    PoolClosed,
}

/// What one worker finds when it asks the queue for work: a job to run,
/// nothing yet (the intake is still open, so the worker keeps waiting),
/// or the signal to exit (intake closed and the queue drained).
#[derive(Clone, Copy, Debug, PartialEq, Eq, Structural)]
pub enum WorkerEvent {
    Run(u64),
    Idle,
    Exit,
}

/// The pool: a fixed worker set, the FIFO queue of pending job ids, and
/// whether the intake (the producer handle) is still open.
pub struct ThreadPool {
    pub init_num: usize,
    pub works: Vec<Worker>,
    pub intake_open: bool,
    pub pending: Vec<u64>,
    /// Every job the pool has accepted, in submission order.
    pub submitted: Ghost<Seq<u64>>,
    /// Every job handed to a worker so far, in hand-out order.
    pub executed: Ghost<Seq<u64>>,
}

impl ThreadPool {
    /// The pool's invariant: at least one worker, workers indexed in order,
    /// and the accepted history is exactly the handed-out history followed
    /// by what still waits in the queue.
    pub open spec fn wf(self) -> bool {
        &&& self.init_num >= 1
        &&& self.works@.len() == self.init_num
        &&& forall|i: int| 0 <= i < self.works@.len() ==> (#[trigger] self.works@[i]).id == i
        &&& self.submitted@ == self.executed@ + self.pending@
    }

    /// Builds a live pool of `init_num` workers over an empty queue.
    /// A zero worker count is caller misuse and is ruled out here; a pool
    /// of zero workers could never make progress.
    pub fn new(init_num: usize) -> (p: ThreadPool)
        requires
            init_num >= 1,
        ensures
            p.wf(),
            p.init_num == init_num,
            p.intake_open,
            p.pending@ == Seq::<u64>::empty(),
            p.submitted@ == Seq::<u64>::empty(),
            p.executed@ == Seq::<u64>::empty(),
    {
        let mut works: Vec<Worker> = Vec::new();
        let mut i: usize = 0;
        while i < init_num
            invariant
                i <= init_num,
                works@.len() == i,
                forall|k: int| 0 <= k < i ==> (#[trigger] works@[k]).id == k,
            decreases init_num - i,
        {
            works.push(Worker::new(i));
            i += 1;
        }
        ThreadPool {
            init_num,
            works,
            intake_open: true,
            pending: Vec::new(),
            submitted: Ghost(Seq::empty()),
            executed: Ghost(Seq::empty()),
        }
    }

    /// Submission: appends the job to the queue while the intake is open;
    /// after the intake has closed, rejects it and leaves the pool unchanged.
    pub fn execute(&mut self, job: u64) -> (r: Result<(), SubmitError>)
        requires
            old(self).wf(),
        ensures
            final(self).wf(),
            final(self).init_num == old(self).init_num,
            final(self).works == old(self).works,
            final(self).intake_open == old(self).intake_open,
            final(self).executed@ == old(self).executed@,
            old(self).intake_open ==> {
                &&& r is Ok
                &&& final(self).pending@ == old(self).pending@.push(job)
                &&& final(self).submitted@ == old(self).submitted@.push(job)
            },
            !old(self).intake_open ==> {
                &&& r == Result::<(), SubmitError>::Err(SubmitError::PoolClosed)
                &&& *final(self) == *old(self)
            },
    {
        if self.intake_open {
            self.pending.push(job);
            proof {
                self.submitted@ = self.submitted@.push(job);
                assert_seqs_equal!(self.submitted@ == self.executed@ + self.pending@);
            }
            Ok(())
        } else {
            Err(SubmitError::PoolClosed)
        }
    }

    /// One worker's turn at the queue: take the front job if there is one,
    /// keep waiting if the queue is empty but the intake is still open, and
    /// exit once the intake is closed and the queue has drained.
    pub fn worker_step(&mut self) -> (ev: WorkerEvent)
        requires
            old(self).wf(),
        ensures
            final(self).wf(),
            final(self).init_num == old(self).init_num,
            final(self).works == old(self).works,
            final(self).intake_open == old(self).intake_open,
            final(self).submitted@ == old(self).submitted@,
            old(self).pending@.len() > 0 ==> {
                &&& ev == WorkerEvent::Run(old(self).pending@[0])
                &&& final(self).pending@ == old(self).pending@.remove(0)
                &&& final(self).executed@ == old(self).executed@.push(old(self).pending@[0])
            },
            old(self).pending@.len() == 0 ==> {
                &&& *final(self) == *old(self)
                &&& ev == (if old(self).intake_open {
                    WorkerEvent::Idle
                } else {
                    WorkerEvent::Exit
                })
            },
    {
        if self.pending.len() > 0 {
            let j = self.pending.remove(0);
            proof {
                self.executed@ = self.executed@.push(j);
                assert_seqs_equal!(self.submitted@ == self.executed@ + self.pending@);
            }
            WorkerEvent::Run(j)
        } else if self.intake_open {
            WorkerEvent::Idle
        } else {
            WorkerEvent::Exit
        }
    }

    /// Teardown: closes the intake first (dropping the producer handle), then
    /// drains the queue the way the workers do, one `worker_step` at a time,
    /// until the step reports exit. Returns the drained jobs in queue order.
    ///
    /// The last two clauses are the shutdown guarantee: nothing is left
    /// pending, and by the time teardown returns, every job ever accepted
    /// has been handed out — the backlog is drained, no job is dropped.
    pub fn teardown(&mut self) -> (ran: Vec<u64>)
        requires
            old(self).wf(),
        ensures
            final(self).wf(),
            final(self).init_num == old(self).init_num,
            final(self).works == old(self).works,
            !final(self).intake_open,
            final(self).submitted@ == old(self).submitted@,
            ran@ == old(self).pending@,
            final(self).pending@ == Seq::<u64>::empty(),
            final(self).executed@ == old(self).executed@ + old(self).pending@,
            final(self).executed@ == final(self).submitted@,
    {
        self.intake_open = false;
        let mut ran: Vec<u64> = Vec::new();
        loop
            invariant
                self.wf(),
                !self.intake_open,
                self.init_num == old(self).init_num,
                self.works == old(self).works,
                self.submitted@ == old(self).submitted@,
                ran@ + self.pending@ == old(self).pending@,
                self.executed@ == old(self).executed@ + ran@,
            ensures
                self.wf(),
                !self.intake_open,
                self.init_num == old(self).init_num,
                self.works == old(self).works,
                self.submitted@ == old(self).submitted@,
                self.pending@.len() == 0,
                ran@ == old(self).pending@,
                self.executed@ == old(self).executed@ + ran@,
                self.executed@ == self.submitted@,
            decreases self.pending@.len(),
        {
            let ghost pending_before = self.pending@;
            let ev = self.worker_step();
            match ev {
                WorkerEvent::Run(j) => {
                    ran.push(j);
                    proof {
                        assert_seqs_equal!(ran@ + self.pending@ == old(self).pending@);
                        assert_seqs_equal!(self.executed@ == old(self).executed@ + ran@);
                    }
                },
                _ => {
                    proof {
                        assert(pending_before.len() == 0);
                        assert_seqs_equal!(ran@ == old(self).pending@);
                        assert_seqs_equal!(self.executed@ == self.submitted@);
                    }
                    break;
                },
            }
        }
        ran
    }
}

/// Law: per-producer FIFO. At every reachable pool state, the jobs handed
/// out so far are exactly the earliest submissions, in submission order:
/// a job submitted first is never overtaken by one submitted after it.
pub proof fn lemma_fifo(p: ThreadPool)
    requires
        p.wf(),
    ensures
        p.executed@ == p.submitted@.take(p.executed@.len() as int),
{
    assert_seqs_equal!(p.executed@ == p.submitted@.take(p.executed@.len() as int));
}

/// Law: no double hand-out. When the accepted job ids are pairwise distinct,
/// so are the handed-out ones and the pending ones: a submitted job is given
/// to a worker at most once, and waits in the queue at most once.
pub proof fn lemma_no_double_dequeue(p: ThreadPool)
    requires
        p.wf(),
        p.submitted@.no_duplicates(),
    ensures
        p.executed@.no_duplicates(),
        p.pending@.no_duplicates(),
{
    let s = p.submitted@;
    let e = p.executed@;
    let q = p.pending@;
    assert forall|i: int, j: int|
        0 <= i < e.len() && 0 <= j < e.len() && i != j implies e[i] != e[j] by {
        assert(e[i] == s[i]);
        assert(e[j] == s[j]);
    }
    assert forall|i: int, j: int|
        0 <= i < q.len() && 0 <= j < q.len() && i != j implies q[i] != q[j] by {
        assert(q[i] == s[e.len() + i]);
        assert(q[j] == s[e.len() + j]);
    }
}

} // verus!

