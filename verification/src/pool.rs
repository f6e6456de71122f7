//! A fixed-size worker pool dispatching tasks from a shared backlog.
//!
//! The backlog is a bounded first-in-first-out queue of task records; every
//! access to it is bracketed by the pool's spin lock, which serializes the many
//! producers calling `submit` and the many workers claiming tasks. A claimed
//! task is marked started exactly once and leaves the visible backlog, so no
//! task is ever executed twice and none is silently dropped while the pool
//! runs.
//!
//! The pool itself only decides: it accepts or rejects a submission, hands out
//! the next task, records completions and failures, and flags shutdown. The
//! surrounding runtime spawns the worker threads, executes each claimed task
//! (catching its failures per task), reports the outcome back through
//! `task_done`, and joins the workers once the pool is closed and drained.

use vstd::prelude::*;
use crate::spin::SpinLock;

verus! {

/// The ways a pool operation can fail.
#[derive(Debug, PartialEq)]
pub enum PoolError {
    /// A submission arrived after `shutdown`; no further work is accepted.
    Closed,
    /// The backlog already holds its configured depth of pending tasks; the
    /// submitter should apply backpressure and retry later.
    Full,
    /// A task's body failed during execution; the failure is contained to that
    /// task and recorded, never propagated into the worker loop.
    TaskFailed,
}

/// One unit of submitted work: the payload plus a marker that flips, exactly
/// once, when a worker claims the task.
struct Task<T> {
    payload: Option<T>,
    started: bool,
}

/// A bounded first-in-first-out backlog of task records.
///
/// Records are appended at the tail; claims advance the head cursor. A record
/// behind the head keeps its started marker set and its payload gone, which is
/// what makes a second claim of the same task impossible.
pub struct TaskQueue<T> {
    inner: Vec<Task<T>>,
    head: usize,
    tail: usize,
    depth: usize,
}

impl<T> TaskQueue<T> {
    /// The configured bound on pending tasks.
    pub closed spec fn spec_depth(self) -> int {
        self.depth as int
    }

    /// Structural invariant: cursors in range, claimed records started and
    /// emptied, pending records unstarted and filled, and the pending count
    /// within the configured depth.
    pub closed spec fn wf(self) -> bool {
        &&& self.tail == self.inner@.len()
        &&& self.head <= self.tail
        &&& self.tail - self.head <= self.depth
        &&& forall|i: int|
            0 <= i < self.head ==> (#[trigger] self.inner@[i]).started && self.inner@[i].payload
                is None
        &&& forall|i: int|
            self.head <= i < self.tail ==> !(#[trigger] self.inner@[i]).started
                && self.inner@[i].payload is Some
    }

    /// Creates an empty backlog that holds at most `depth` pending tasks.
    pub fn new(depth: usize) -> (r: Self)
        ensures
            r.wf(),
            r.spec_depth() == depth,
            r@ == Seq::<T>::empty(),
    {
        let q = TaskQueue { inner: Vec::new(), head: 0, tail: 0, depth };
        proof {
            assert(q@ =~= Seq::<T>::empty());
        }
        q
    }

    /// Appends a task behind the newest pending one.
    ///
    /// When the backlog already holds `depth` pending tasks the submission is
    /// rejected with `Full` and nothing changes.
    pub fn enqueue(&mut self, task: T) -> (r: Result<(), PoolError>)
        requires
            old(self).wf(),
        ensures
            final(self).wf(),
            final(self).spec_depth() == old(self).spec_depth(),
            old(self)@.len() == old(self).spec_depth() ==> {
                &&& r == Err::<(), PoolError>(PoolError::Full)
                &&& final(self)@ == old(self)@
            },
            old(self)@.len() < old(self).spec_depth() ==> {
                &&& r == Ok::<(), PoolError>(())
                &&& final(self)@ == old(self)@.push(task)
            },
    {
        if self.tail - self.head == self.depth {
            return Err(PoolError::Full);
        }
        self.inner.push(Task { payload: Some(task), started: false });
        self.tail = self.inner.len();
        proof {
            assert(final(self)@ =~= old(self)@.push(task));
        }
        Ok(())
    }

    /// Claims the oldest pending task: marks its record started, removes it
    /// from the visible backlog, and hands the payload out. Returns `None` on
    /// an empty backlog.
    pub fn dequeue(&mut self) -> (r: Option<T>)
        requires
            old(self).wf(),
        ensures
            final(self).wf(),
            final(self).spec_depth() == old(self).spec_depth(),
            old(self)@.len() == 0 ==> {
                &&& r is None
                &&& final(self)@ == old(self)@
            },
            old(self)@.len() > 0 ==> {
                &&& r == Some(old(self)@[0])
                &&& final(self)@ == old(self)@.drop_first()
            },
    {
        if self.head == self.tail {
            return None;
        }
        let mut claimed = Task { payload: None, started: true };
        core::mem::swap(&mut self.inner[self.head], &mut claimed);
        self.head = self.head + 1;
        match claimed.payload {
            Some(v) => {
                proof {
                    assert(final(self)@ =~= old(self)@.drop_first());
                }
                Some(v)
            },
            None => {
                proof {
                    assert(false);
                }
                None
            },
        }
    }

    /// How many tasks are pending.
    pub fn len(&self) -> (n: usize)
        requires
            self.wf(),
        ensures
            n == self@.len(),
    {
        self.tail - self.head
    }
}

impl<T> View for TaskQueue<T> {
    type V = Seq<T>;

    /// The pending task payloads, oldest first.
    closed spec fn view(&self) -> Seq<T> {
        Seq::new(
            (self.tail - self.head) as nat,
            |j: int| self.inner@[self.head + j].payload->0,
        )
    }
}

/// A fixed set of workers pulling tasks from a shared, lock-guarded backlog.
///
/// The worker count is set at construction and never grows; registration
/// through `worker_enter` keeps the number of active workers within it. Tasks
/// are claimed in submission order, though workers may finish them in any
/// order.
pub struct WorkerPool<T> {
    lock: SpinLock<()>,
    queue: TaskQueue<T>,
    workers: usize,
    active: usize,
    closed: bool,
    completed: usize,
    failed: usize,
}

impl<T> WorkerPool<T> {
    /// The pending task payloads, oldest first.
    pub closed spec fn backlog(self) -> Seq<T> {
        self.queue@
    }

    /// Whether `shutdown` has been called.
    pub closed spec fn spec_closed(self) -> bool {
        self.closed
    }

    /// The configured worker count.
    pub closed spec fn spec_workers(self) -> int {
        self.workers as int
    }

    /// How many workers are currently registered.
    pub closed spec fn spec_active(self) -> int {
        self.active as int
    }

    /// How many tasks have been reported finished, failures included.
    pub closed spec fn spec_completed(self) -> int {
        self.completed as int
    }

    /// How many finished tasks were reported as failures.
    pub closed spec fn spec_failed(self) -> int {
        self.failed as int
    }

    /// The configured bound on pending tasks.
    pub closed spec fn spec_depth(self) -> int {
        self.queue.spec_depth()
    }

    /// Structural invariant: a well-formed backlog, the lock free between
    /// operations, and never more registered workers than configured.
    pub closed spec fn wf(self) -> bool {
        &&& self.queue.wf()
        &&& !self.lock.spec_locked()
        &&& self.active <= self.workers
        &&& self.failed <= self.completed
    }

    /// Creates an open pool for `workers` worker threads and a backlog of at
    /// most `depth` pending tasks.
    pub fn new(workers: usize, depth: usize) -> (r: Self)
        ensures
            r.wf(),
            r.backlog() == Seq::<T>::empty(),
            !r.spec_closed(),
            r.spec_workers() == workers,
            r.spec_active() == 0,
            r.spec_completed() == 0,
            r.spec_failed() == 0,
            r.spec_depth() == depth,
    {
        WorkerPool {
            lock: SpinLock::new(()),
            queue: TaskQueue::new(depth),
            workers,
            active: 0,
            closed: false,
            completed: 0,
            failed: 0,
        }
    }

    /// Enqueues a task under the lock. Callable from any thread.
    ///
    /// Rejected with `Closed` once the pool is shut down and with `Full` while
    /// the backlog is at its depth; in either case nothing changes. Otherwise
    /// the task joins the backlog behind the pending ones.
    pub fn submit(&mut self, task: T) -> (r: Result<(), PoolError>)
        requires
            old(self).wf(),
        ensures
            final(self).wf(),
            final(self).spec_closed() == old(self).spec_closed(),
            final(self).spec_workers() == old(self).spec_workers(),
            final(self).spec_active() == old(self).spec_active(),
            final(self).spec_completed() == old(self).spec_completed(),
            final(self).spec_failed() == old(self).spec_failed(),
            final(self).spec_depth() == old(self).spec_depth(),
            old(self).spec_closed() ==> {
                &&& r == Err::<(), PoolError>(PoolError::Closed)
                &&& final(self).backlog() == old(self).backlog()
            },
            !old(self).spec_closed() && old(self).backlog().len() == old(self).spec_depth() ==> {
                &&& r == Err::<(), PoolError>(PoolError::Full)
                &&& final(self).backlog() == old(self).backlog()
            },
            !old(self).spec_closed() && old(self).backlog().len() < old(self).spec_depth() ==> {
                &&& r == Ok::<(), PoolError>(())
                &&& final(self).backlog() == old(self).backlog().push(task)
            },
    {
        if self.closed {
            return Err(PoolError::Closed);
        }
        self.lock.lock();
        let r = self.queue.enqueue(task);
        self.lock.unlock();
        r
    }

    /// Claims the oldest pending task for execution, under the lock. Called by
    /// an idle worker; the caller runs the payload outside the lock.
    ///
    /// Returns `None` on an empty backlog, whether or not the pool is closed:
    /// a worker that keeps claiming drains every submitted task before it
    /// parks or exits.
    pub fn claim(&mut self) -> (r: Option<T>)
        requires
            old(self).wf(),
        ensures
            final(self).wf(),
            final(self).spec_closed() == old(self).spec_closed(),
            final(self).spec_workers() == old(self).spec_workers(),
            final(self).spec_active() == old(self).spec_active(),
            final(self).spec_completed() == old(self).spec_completed(),
            final(self).spec_failed() == old(self).spec_failed(),
            final(self).spec_depth() == old(self).spec_depth(),
            old(self).backlog().len() == 0 ==> {
                &&& r is None
                &&& final(self).backlog() == old(self).backlog()
            },
            old(self).backlog().len() > 0 ==> {
                &&& r == Some(old(self).backlog()[0])
                &&& final(self).backlog() == old(self).backlog().drop_first()
            },
    {
        self.lock.lock();
        let r = self.queue.dequeue();
        self.lock.unlock();
        r
    }

    /// Records the outcome of one claimed task: a completion, and a contained
    /// failure when `success` is false. Failures never shrink the pool or
    /// corrupt the backlog; they are only counted here for the submitter.
    pub fn task_done(&mut self, success: bool)
        requires
            old(self).wf(),
            old(self).spec_completed() < usize::MAX,
        ensures
            final(self).wf(),
            final(self).spec_completed() == old(self).spec_completed() + 1,
            final(self).spec_failed() == old(self).spec_failed() + if success {
                0int
            } else {
                1int
            },
            final(self).backlog() == old(self).backlog(),
            final(self).spec_closed() == old(self).spec_closed(),
            final(self).spec_workers() == old(self).spec_workers(),
            final(self).spec_active() == old(self).spec_active(),
            final(self).spec_depth() == old(self).spec_depth(),
    {
        self.completed = self.completed + 1;
        if !success {
            self.failed = self.failed + 1;
        }
    }

    /// Registers one worker thread. Succeeds while fewer than the configured
    /// number are active, so live workers never exceed the pool's size.
    pub fn worker_enter(&mut self) -> (r: bool)
        requires
            old(self).wf(),
        ensures
            final(self).wf(),
            old(self).spec_active() < old(self).spec_workers() ==> r && final(self).spec_active()
                == old(self).spec_active() + 1,
            old(self).spec_active() == old(self).spec_workers() ==> !r && final(self).spec_active()
                == old(self).spec_active(),
            final(self).backlog() == old(self).backlog(),
            final(self).spec_closed() == old(self).spec_closed(),
            final(self).spec_workers() == old(self).spec_workers(),
            final(self).spec_completed() == old(self).spec_completed(),
            final(self).spec_failed() == old(self).spec_failed(),
            final(self).spec_depth() == old(self).spec_depth(),
    {
        if self.active < self.workers {
            self.active = self.active + 1;
            true
        } else {
            false
        }
    }

    /// Deregisters one worker thread, on its way out.
    pub fn worker_exit(&mut self)
        requires
            old(self).wf(),
            old(self).spec_active() > 0,
        ensures
            final(self).wf(),
            final(self).spec_active() == old(self).spec_active() - 1,
            final(self).backlog() == old(self).backlog(),
            final(self).spec_closed() == old(self).spec_closed(),
            final(self).spec_workers() == old(self).spec_workers(),
            final(self).spec_completed() == old(self).spec_completed(),
            final(self).spec_failed() == old(self).spec_failed(),
            final(self).spec_depth() == old(self).spec_depth(),
    {
        self.active = self.active - 1;
    }

    /// Closes the pool: every later `submit` is rejected with `Closed`. The
    /// backlog is untouched, so workers still drain the tasks accepted before
    /// the close; the runtime joins them once the backlog is empty.
    pub fn shutdown(&mut self)
        requires
            old(self).wf(),
        ensures
            final(self).wf(),
            final(self).spec_closed(),
            final(self).backlog() == old(self).backlog(),
            final(self).spec_workers() == old(self).spec_workers(),
            final(self).spec_active() == old(self).spec_active(),
            final(self).spec_completed() == old(self).spec_completed(),
            final(self).spec_failed() == old(self).spec_failed(),
            final(self).spec_depth() == old(self).spec_depth(),
    {
        self.closed = true;
    }

    /// Whether the pool has been shut down.
    pub fn is_closed(&self) -> (r: bool)
        ensures
            r == self.spec_closed(),
    {
        self.closed
    }

    /// How many tasks are pending. Advisory under concurrent use.
    pub fn pending(&self) -> (n: usize)
        requires
            self.wf(),
        ensures
            n == self.backlog().len(),
    {
        self.queue.len()
    }

    /// The configured worker count.
    pub fn worker_count(&self) -> (n: usize)
        ensures
            n == self.spec_workers(),
    {
        self.workers
    }

    /// How many workers are currently registered.
    pub fn active_workers(&self) -> (n: usize)
        ensures
            n == self.spec_active(),
    {
        self.active
    }

    /// How many tasks have been reported finished, and how many of those
    /// failed.
    pub fn completed_counts(&self) -> (r: (usize, usize))
        ensures
            r.0 == self.spec_completed(),
            r.1 == self.spec_failed(),
    {
        (self.completed, self.failed)
    }

    /// Backpressure discipline: a well-formed pool never holds more pending
    /// tasks than its configured depth, and never more registered workers than
    /// its configured size.
    pub proof fn lemma_bounded(self)
        requires
            self.wf(),
        ensures
            self.backlog().len() <= self.spec_depth(),
            self.spec_active() <= self.spec_workers(),
    {
    }

    /// Dispatch is complete and exclusive: claiming one task at a time from a
    /// backlog holding `q` yields, after `k` claims, exactly the tasks
    /// `q.take(k)` in submission order, with `q.skip(k)` still pending — so a
    /// pool that drains its backlog executes every submitted task exactly
    /// once, none twice and none dropped.
    pub proof fn lemma_dispatch_complete(q: Seq<T>, k: int)
        requires
            0 <= k < q.len(),
        ensures
            q.skip(k)[0] == q[k],
            q.skip(k).drop_first() == q.skip(k + 1),
            q.take(k).push(q[k]) == q.take(k + 1),
            q.take(q.len() as int) == q,
            crate::spsc::drained(q) == q,
    {
        crate::spsc::RingBuffer::<T>::lemma_fifo(q, k);
        crate::spsc::RingBuffer::<T>::lemma_fifo_drain(q);
        assert(q.take(k).push(q[k]) =~= q.take(k + 1));
        assert(q.take(q.len() as int) =~= q);
    }
}

} // verus!
