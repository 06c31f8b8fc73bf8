use vstd::prelude::*;
use std::collections::VecDeque;

verus! {

/// What a worker takes from the queue.
pub enum Message<J> {
    /// A job to run.
    NewJob(J),
    /// Leave the worker loop.
    Terminate,
}

/// A pool cannot be built with no workers.
#[derive(Clone, Copy, Debug, PartialEq, Eq, Structural)]
pub enum PoolError {
    ZeroSize,
}

/// One operation on the job queue.
pub enum QueueOp<J> {
    /// A producer submits a job.
    Submit(J),
    /// A worker takes the oldest message, if any.
    Take,
}

/// The effect of one operation on the queue `q`: the message taken, if any,
/// and the queue after it.
pub open spec fn queue_step<J>(q: Seq<Message<J>>, op: QueueOp<J>) -> (Option<Message<J>>, Seq<
    Message<J>,
>) {
    match op {
        QueueOp::Submit(job) => (None, q.push(Message::NewJob(job))),
        QueueOp::Take => if q.len() > 0 {
            (Some(q[0]), q.drop_first())
        } else {
            (None, q)
        },
    }
}

/// Runs the operations in order from queue `q`: the messages taken, in the
/// order they were taken, and the queue left at the end.
pub open spec fn run_queue<J>(q: Seq<Message<J>>, ops: Seq<QueueOp<J>>) -> (Seq<Message<J>>, Seq<
    Message<J>,
>)
    decreases ops.len(),
{
    if ops.len() == 0 {
        (Seq::empty(), q)
    } else {
        let (taken, rest) = run_queue(q, ops.drop_last());
        let (m, next) = queue_step(rest, ops.last());
        match m {
            Some(m) => (taken.push(m), next),
            None => (taken, next),
        }
    }
}

/// The jobs submitted by the operations, in submission order, as messages.
pub open spec fn submissions<J>(ops: Seq<QueueOp<J>>) -> Seq<Message<J>>
    decreases ops.len(),
{
    if ops.len() == 0 {
        Seq::empty()
    } else {
        match ops.last() {
            QueueOp::Submit(job) => submissions(ops.drop_last()).push(Message::NewJob(job)),
            QueueOp::Take => submissions(ops.drop_last()),
        }
    }
}

/// However submissions and takes interleave, every message comes out of
/// the queue exactly once and in the order it went in: what was taken,
/// followed by what is left, is the starting queue followed by the
/// submitted jobs.
pub proof fn lemma_each_job_taken_once<J>(q: Seq<Message<J>>, ops: Seq<QueueOp<J>>)
    ensures
        run_queue(q, ops).0 + run_queue(q, ops).1 == q + submissions(ops),
    decreases ops.len(),
{
    if ops.len() > 0 {
        lemma_each_job_taken_once(q, ops.drop_last());
        let (taken, rest) = run_queue(q, ops.drop_last());
        match ops.last() {
            QueueOp::Submit(job) => {
                assert(taken + rest.push(Message::NewJob(job)) =~= (taken + rest).push(
                    Message::NewJob(job),
                ));
            },
            QueueOp::Take => {
                if rest.len() > 0 {
                    assert(taken.push(rest[0]) + rest.drop_first() =~= taken + rest);
                }
            },
        }
    }
}

/// A queue of `n` stop messages.
pub open spec fn terminates<J>(n: nat) -> Seq<Message<J>> {
    Seq::new(n, |i: int| Message::<J>::Terminate)
}

/// The jobs as queue messages, in order.
pub open spec fn job_messages<J>(jobs: Seq<J>) -> Seq<Message<J>> {
    Seq::new(jobs.len(), |i: int| Message::NewJob(jobs[i]))
}

/// The number of stop messages in `q`.
pub open spec fn stop_count<J>(q: Seq<Message<J>>) -> nat
    decreases q.len(),
{
    if q.len() == 0 {
        0
    } else {
        stop_count(q.drop_last()) + if q.last() is Terminate {
            1nat
        } else {
            0nat
        }
    }
}

proof fn lemma_stop_count_prefix<J>(jobs: Seq<J>, n: nat, k: int)
    requires
        0 <= k <= jobs.len() + n,
    ensures
        stop_count((job_messages(jobs) + terminates::<J>(n)).take(k)) == if k > jobs.len() {
            k - jobs.len()
        } else {
            0
        },
    decreases k,
{
    let q = job_messages(jobs) + terminates::<J>(n);
    if k > 0 {
        lemma_stop_count_prefix(jobs, n, k - 1);
        assert(q.take(k).drop_last() =~= q.take(k - 1));
        if k - 1 < jobs.len() {
            assert(q[k - 1] == Message::NewJob(jobs[k - 1]));
        } else {
            assert(q[k - 1] == terminates::<J>(n)[k - 1 - jobs.len()]);
        }
    } else {
        assert(q.take(0) =~= Seq::<Message<J>>::empty());
    }
}

/// A pool shut down after its jobs were submitted holds the jobs, then one
/// stop message per worker. Once its workers, each of which stops at the
/// first stop message it takes, have taken all `n` of them between them,
/// the queue is empty: every job was taken, exactly once and in submission
/// order, before any stop message.
pub proof fn lemma_all_stops_taken_after_every_job<J>(
    jobs: Seq<J>,
    n: nat,
    taken: Seq<Message<J>>,
    rest: Seq<Message<J>>,
)
    requires
        n > 0,
        taken + rest == job_messages(jobs) + terminates::<J>(n),
        stop_count(taken) == n,
    ensures
        rest.len() == 0,
        taken == job_messages(jobs) + terminates::<J>(n),
        taken.take(jobs.len() as int) == job_messages(jobs),
{
    let q = job_messages(jobs) + terminates::<J>(n);
    let k = taken.len() as int;
    assert(q.len() == jobs.len() + n);
    assert((taken + rest).len() == taken.len() + rest.len());
    assert(q.take(k) =~= taken);
    lemma_stop_count_prefix(jobs, n, k);
    assert(q.take(jobs.len() as int) =~= job_messages(jobs));
    assert(taken =~= q);
}

/// The shared state of a fixed-size worker pool: its size, whether it still
/// takes jobs, and the queue that its workers take messages from.
pub struct ThreadPool<J> {
    size: usize,
    accepting: bool,
    queue: VecDeque<Message<J>>,
}

impl<J> ThreadPool<J> {
    /// The number of workers.
    pub closed spec fn spec_size(&self) -> nat {
        self.size as nat
    }

    /// Whether the pool still takes jobs; false once it is shut down.
    pub closed spec fn spec_accepting(&self) -> bool {
        self.accepting
    }

    /// The messages not yet taken by a worker, oldest first.
    pub closed spec fn pending(&self) -> Seq<Message<J>> {
        self.queue@
    }

    /// A live pool has at least one worker.
    pub closed spec fn well_formed(&self) -> bool {
        self.size > 0
    }

    /// Makes a pool for `size` workers, with an empty queue. A pool of no
    /// workers is refused.
    pub fn new(size: usize) -> (r: Result<ThreadPool<J>, PoolError>)
        ensures
            r is Err <==> size == 0,
            r matches Err(e) ==> e == PoolError::ZeroSize,
            r matches Ok(p) ==> p.well_formed() && p.spec_size() == size && p.spec_accepting()
                && p.pending() == Seq::<Message<J>>::empty(),
    {
        if size == 0 {
            return Err(PoolError::ZeroSize);
        }
        Ok(ThreadPool { size, accepting: true, queue: VecDeque::new() })
    }

    /// Queues a job for some worker. A pool that is shut down hands the
    /// job back untouched and its queue stays as it was.
    pub fn execute(&mut self, job: J) -> (r: Result<(), J>)
        ensures
            final(self).spec_size() == old(self).spec_size(),
            final(self).spec_accepting() == old(self).spec_accepting(),
            final(self).well_formed() == old(self).well_formed(),
            old(self).spec_accepting() ==> r is Ok && final(self).pending() == queue_step(
                old(self).pending(),
                QueueOp::Submit(job),
            ).1,
            !old(self).spec_accepting() ==> r == Err::<(), J>(job) && final(self).pending()
                == old(self).pending(),
    {
        if self.accepting {
            self.queue.push_back(Message::NewJob(job));
            Ok(())
        } else {
            Err(job)
        }
    }

    /// Takes the oldest message off the queue, if there is one.
    pub fn next_message(&mut self) -> (r: Option<Message<J>>)
        ensures
            final(self).spec_size() == old(self).spec_size(),
            final(self).spec_accepting() == old(self).spec_accepting(),
            final(self).well_formed() == old(self).well_formed(),
            (r, final(self).pending()) == queue_step(old(self).pending(), QueueOp::Take),
    {
        let r = self.queue.pop_front();
        proof {
            if old(self).queue@.len() > 0 {
                assert(self.queue@ =~= old(self).queue@.drop_first());
            }
        }
        r
    }

    /// Stops taking jobs and queues one stop message for each worker, after
    /// the jobs already queued. A pool that is already shut down is left as
    /// it is.
    pub fn shutdown(&mut self)
        ensures
            final(self).spec_size() == old(self).spec_size(),
            final(self).well_formed() == old(self).well_formed(),
            !final(self).spec_accepting(),
            old(self).spec_accepting() ==> final(self).pending() == old(self).pending()
                + terminates::<J>(old(self).spec_size()),
            !old(self).spec_accepting() ==> final(self).pending() == old(self).pending(),
    {
        if !self.accepting {
            return;
        }
        let ghost start = self.queue@;
        let mut i: usize = 0;
        while i < self.size
            invariant
                i <= self.size,
                self.size == old(self).size,
                self.queue@ == start + terminates::<J>(i as nat),
            decreases self.size - i,
        {
            self.queue.push_back(Message::Terminate);
            assert(start + terminates::<J>(i as nat + 1) =~= (start + terminates::<J>(
                i as nat,
            )).push(Message::Terminate));
            i = i + 1;
        }
        self.accepting = false;
    }

    /// The number of workers.
    pub fn size(&self) -> (r: usize)
        ensures
            r == self.spec_size(),
    {
        self.size
    }

    /// Whether the pool still takes jobs.
    pub fn is_accepting(&self) -> (r: bool)
        ensures
            r == self.spec_accepting(),
    {
        self.accepting
    }

    /// The number of messages waiting in the queue.
    pub fn pending_len(&self) -> (r: usize)
        ensures
            r == self.pending().len(),
    {
        self.queue.len()
    }
}

/// The two states of a worker.
#[derive(Clone, Copy, Debug, PartialEq, Eq, Structural)]
pub enum WorkerState {
    Running,
    Terminated,
}

/// How a job ended.
#[derive(Clone, Copy, Debug, PartialEq, Eq, Structural)]
pub enum JobOutcome {
    Completed,
    Panicked,
}

/// What happens to a worker.
#[derive(Clone, Copy, Debug, PartialEq, Eq, Structural)]
pub enum WorkerEvent {
    /// A job it took has ended.
    JobFinished(JobOutcome),
    /// It took a stop message.
    TerminateReceived,
}

pub open spec fn worker_next(state: WorkerState, event: WorkerEvent) -> WorkerState {
    match (state, event) {
        (WorkerState::Running, WorkerEvent::TerminateReceived) => WorkerState::Terminated,
        (s, _) => s,
    }
}

/// The worker's next state. A running worker keeps running after every job,
/// whether the job completed or panicked, and stops only on a stop message;
/// a stopped worker stays stopped.
pub fn worker_step(state: WorkerState, event: WorkerEvent) -> (r: WorkerState)
    ensures
        r == worker_next(state, event),
        state == WorkerState::Terminated ==> r == WorkerState::Terminated,
        event is JobFinished ==> r == state,
{
    match (state, event) {
        (WorkerState::Running, WorkerEvent::TerminateReceived) => WorkerState::Terminated,
        (s, _) => s,
    }
}

} // verus!
