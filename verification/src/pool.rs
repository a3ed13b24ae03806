//! The job queue and worker pool: the coordination model of the server.
//!
//! The pool owns a fixed set of workers and the sending side of one shared
//! job queue. Submitters enqueue jobs; each job is taken by exactly one
//! worker (competing consumers, not broadcast); a worker that finds the
//! queue drained and the sending side closed terminates. Teardown closes
//! the sending side exactly once and then waits for every worker to
//! terminate.
//!
//! This module is that protocol as a state machine over plain values. Jobs
//! are identified by their submission index; `worker_step` is one turn of
//! a worker's loop: it either takes (and thereby runs) the job at the head
//! of the queue, or, with the queue drained and the sender closed,
//! terminates. The surrounding application drives real threads and a real
//! channel through exactly these transitions; the lemmas at the end state
//! the guarantees the protocol provides: every submitted job runs exactly
//! once, and teardown completes only once every job has run.

use vstd::prelude::*;

verus! {

/// Why pool construction can fail.
pub enum PoolCreationError {
    /// A pool must have at least one worker.
    InvalidThreadCount,
}

/// One worker: an integer identity and whether its loop is still running.
pub struct Worker {
    /// The worker's id: its index in the pool.
    pub id: usize,
    /// Whether the worker's loop is still running. A worker stops only
    /// when it observes the queue drained and the sending side closed.
    pub running: bool,
}

impl Worker {
    /// A freshly started worker.
    pub fn new(id: usize) -> (w: Worker)
        ensures
            w.id == id,
            w.running,
    {
        Worker { id, running: true }
    }
}

/// The pool: its workers, the shared job queue, and the sending side.
pub struct ThreadPool {
    workers: Vec<Worker>,
    connected: bool,
    queue: Vec<u64>,
    submitted: u64,
    executed: Vec<u64>,
}

impl ThreadPool {
    /// The workers of the pool.
    pub closed spec fn spec_workers(&self) -> Seq<Worker> {
        self.workers@
    }

    /// Whether the sending side of the queue is still connected; teardown
    /// closes it exactly once.
    pub closed spec fn spec_connected(&self) -> bool {
        self.connected
    }

    /// The jobs waiting in the queue, oldest first, each named by its
    /// submission index.
    pub closed spec fn spec_queue(&self) -> Seq<u64> {
        self.queue@
    }

    /// How many jobs have been submitted; job ids are `0..submitted`.
    pub closed spec fn spec_submitted(&self) -> u64 {
        self.submitted
    }

    /// The jobs that workers have taken and run, in delivery order.
    pub closed spec fn spec_executed(&self) -> Seq<u64> {
        self.executed@
    }

    /// All the ids submitted so far, in submission order.
    pub open spec fn spec_all_jobs(&self) -> Seq<u64> {
        Seq::new(self.spec_submitted() as nat, |i: int| i as u64)
    }

    /// Every worker has terminated.
    pub open spec fn spec_all_stopped(&self) -> bool {
        forall|i: int|
            0 <= i < self.spec_workers().len() ==> !(#[trigger] self.spec_workers()[i]).running
    }

    /// The pool's invariant, which every operation preserves:
    /// - there is at least one worker, and worker `i` has id `i`;
    /// - the jobs run so far followed by the jobs still queued are exactly
    ///   the jobs submitted so far, in order — no job is lost, duplicated
    ///   or invented;
    /// - while the sending side is connected, every worker is running;
    /// - once every worker has terminated, the queue is empty.
    pub open spec fn wf(&self) -> bool {
        &&& self.spec_workers().len() >= 1
        &&& forall|i: int|
            0 <= i < self.spec_workers().len() ==> (#[trigger] self.spec_workers()[i]).id == i
        &&& self.spec_executed() + self.spec_queue() == self.spec_all_jobs()
        &&& (self.spec_connected() ==> forall|i: int|
            0 <= i < self.spec_workers().len() ==> (#[trigger] self.spec_workers()[i]).running)
        &&& (self.spec_all_stopped() ==> self.spec_queue().len() == 0)
    }

    /// Creates a pool of `size` workers, with ids `0..size`, all running,
    /// an empty queue and a connected sending side. Fails exactly when
    /// `size` is zero.
    pub fn new(size: usize) -> (r: Result<ThreadPool, PoolCreationError>)
        ensures
            size == 0 <==> r matches Err(PoolCreationError::InvalidThreadCount),
            r matches Ok(p) ==> {
                &&& p.wf()
                &&& p.spec_workers().len() == size
                &&& forall|i: int|
                    0 <= i < size ==> (#[trigger] p.spec_workers()[i]).running
                &&& p.spec_connected()
                &&& p.spec_queue().len() == 0
                &&& p.spec_submitted() == 0
                &&& p.spec_executed().len() == 0
            },
    {
        if size == 0 {
            return Err(PoolCreationError::InvalidThreadCount);
        }
        let mut workers: Vec<Worker> = Vec::new();
        let mut id: usize = 0;
        while id < size
            invariant
                id <= size,
                workers@.len() == id,
                forall|i: int| 0 <= i < id ==> (#[trigger] workers@[i]).id == i,
                forall|i: int| 0 <= i < id ==> (#[trigger] workers@[i]).running,
            decreases size - id,
        {
            workers.push(Worker::new(id));
            id = id + 1;
        }
        let p = ThreadPool {
            workers,
            connected: true,
            queue: Vec::new(),
            submitted: 0,
            executed: Vec::new(),
        };
        proof {
            assert(p.spec_executed() + p.spec_queue() =~= p.spec_all_jobs());
        }
        Ok(p)
    }

    /// Submits a job: enqueues the next id for eventual execution by some
    /// worker. Submitting is only allowed while the sending side is
    /// connected — submitting after shutdown has begun is a caller error,
    /// exactly as closing the channel makes it one.
    pub fn execute(&mut self) -> (job: u64)
        requires
            old(self).wf(),
            old(self).spec_connected(),
            old(self).spec_submitted() < u64::MAX,
        ensures
            final(self).wf(),
            job == old(self).spec_submitted(),
            final(self).spec_submitted() == old(self).spec_submitted() + 1,
            final(self).spec_queue() == old(self).spec_queue().push(job),
            final(self).spec_executed() == old(self).spec_executed(),
            final(self).spec_workers() == old(self).spec_workers(),
            final(self).spec_connected(),
    {
        let job: u64 = self.submitted;
        self.queue.push(job);
        self.submitted = self.submitted + 1;
        proof {
            let jobs = old(self).spec_all_jobs();
            assert(self.spec_executed() + self.spec_queue() =~= jobs.push(job));
            assert(jobs.push(job) =~= self.spec_all_jobs());
            assert(!self.spec_all_stopped()) by {
                assert(self.spec_workers()[0].running);
            }
        }
        job
    }

    /// One turn of worker `w`'s loop, answered once the queue holds a job
    /// or the sending side is closed (a worker blocks until one of the two
    /// holds). With a job queued, the worker takes and runs the oldest
    /// one; with the queue drained and the sender closed, the worker
    /// observes disconnection and terminates.
    pub fn worker_step(&mut self, w: usize) -> (job: Option<u64>)
        requires
            old(self).wf(),
            w < old(self).spec_workers().len(),
            old(self).spec_workers()[w as int].running,
            old(self).spec_queue().len() > 0 || !old(self).spec_connected(),
        ensures
            final(self).wf(),
            final(self).spec_submitted() == old(self).spec_submitted(),
            final(self).spec_connected() == old(self).spec_connected(),
            match job {
                Some(j) => {
                    &&& old(self).spec_queue().len() > 0
                    &&& j == old(self).spec_queue()[0]
                    &&& final(self).spec_queue() == old(self).spec_queue().drop_first()
                    &&& final(self).spec_executed() == old(self).spec_executed().push(j)
                    &&& final(self).spec_workers() == old(self).spec_workers()
                },
                None => {
                    &&& old(self).spec_queue().len() == 0
                    &&& final(self).spec_queue() == old(self).spec_queue()
                    &&& final(self).spec_executed() == old(self).spec_executed()
                    &&& final(self).spec_workers() == old(self).spec_workers().update(
                        w as int,
                        Worker { id: w, running: false },
                    )
                },
            },
    {
        if self.queue.len() > 0 {
            let job: u64 = self.queue.remove(0);
            self.executed.push(job);
            proof {
                let e = old(self).spec_executed();
                let q = old(self).spec_queue();
                assert(self.spec_queue() =~= q.drop_first());
                assert(self.spec_executed() + self.spec_queue() =~= e + q);
                assert(!self.spec_all_stopped()) by {
                    assert(self.spec_workers()[w as int].running);
                }
            }
            Some(job)
        } else {
            self.workers[w] = Worker { id: w, running: false };
            None
        }
    }

    /// Begins teardown: closes the sending side of the queue. After this,
    /// workers drain what is queued and then terminate one by one; the
    /// destructor joins each of them before it returns.
    pub fn shutdown(&mut self)
        requires
            old(self).wf(),
        ensures
            final(self).wf(),
            !final(self).spec_connected(),
            final(self).spec_queue() == old(self).spec_queue(),
            final(self).spec_submitted() == old(self).spec_submitted(),
            final(self).spec_executed() == old(self).spec_executed(),
            final(self).spec_workers() == old(self).spec_workers(),
    {
        self.connected = false;
        proof {
            if self.spec_all_stopped() {
                assert(old(self).spec_all_stopped()) by {
                    assert forall|i: int|
                        0 <= i < old(self).spec_workers().len() implies !(#[trigger] old(
                        self,
                    ).spec_workers()[i]).running by {
                        assert(!self.spec_workers()[i].running);
                    }
                }
            }
        }
    }

    /// How many workers the pool owns.
    pub fn worker_count(&self) -> (r: usize)
        ensures
            r == self.spec_workers().len(),
    {
        self.workers.len()
    }

    /// Whether worker `w` is still running.
    pub fn worker_running(&self, w: usize) -> (r: bool)
        requires
            w < self.spec_workers().len(),
        ensures
            r == self.spec_workers()[w as int].running,
    {
        self.workers[w].running
    }

    /// Whether the sending side is still connected.
    pub fn is_connected(&self) -> (r: bool)
        ensures
            r == self.spec_connected(),
    {
        self.connected
    }

    /// How many jobs are waiting in the queue.
    pub fn pending_count(&self) -> (r: usize)
        ensures
            r == self.spec_queue().len(),
    {
        self.queue.len()
    }

    /// How many jobs have been submitted.
    pub fn submitted_count(&self) -> (r: u64)
        ensures
            r == self.spec_submitted(),
    {
        self.submitted
    }

    /// The jobs run so far, in delivery order.
    pub fn executed_jobs(&self) -> (r: &Vec<u64>)
        ensures
            r@ == self.spec_executed(),
    {
        &self.executed
    }
}

/// Exactly-once execution: once the queue has drained, the jobs run are
/// precisely the submitted ones — each of the `k` submitted jobs has run
/// exactly once, whatever the interleaving of workers that got here.
pub proof fn lemma_jobs_execute_exactly_once(p: &ThreadPool)
    requires
        p.wf(),
        p.spec_queue().len() == 0,
    ensures
        p.spec_executed() == p.spec_all_jobs(),
        p.spec_executed().len() == p.spec_submitted(),
        forall|i: int, j: int|
            0 <= i < p.spec_executed().len() && 0 <= j < p.spec_executed().len() && i != j
                ==> p.spec_executed()[i] != p.spec_executed()[j],
{
    assert(p.spec_executed() =~= p.spec_executed() + p.spec_queue());
}

/// Teardown is a barrier: in any pool state where every worker has
/// terminated — the state teardown's joins wait for — the queue is empty
/// and every submitted job has run exactly once. No worker is left
/// running, and no job is lost.
pub proof fn lemma_teardown_complete(p: &ThreadPool)
    requires
        p.wf(),
        p.spec_all_stopped(),
    ensures
        p.spec_queue().len() == 0,
        p.spec_executed() == p.spec_all_jobs(),
        forall|i: int, j: int|
            0 <= i < p.spec_executed().len() && 0 <= j < p.spec_executed().len() && i != j
                ==> p.spec_executed()[i] != p.spec_executed()[j],
{
    lemma_jobs_execute_exactly_once(p);
}

} // verus!
