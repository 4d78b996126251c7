//! The job queue / loop: the serialization primitive that gives each job
//! exclusive access to the execution environment. Work arrives as an explicit
//! message (not an opaque closure), is numbered by arrival, and is handed to
//! the single loop one job at a time: no job begins while another runs, jobs
//! run in strict FIFO order of successful enqueue, and every enqueued job is
//! executed exactly once. A queue that stopped accepting (environment torn
//! down, or draining for shutdown) fails every further enqueue with a
//! terminal error while jobs already enqueued still complete.

use vstd::prelude::*;
use crate::errors::EnvError;
use crate::proxy::ProxyDefinition;
use crate::values::ScriptValue;

verus! {

/// The work a job carries across the thread boundary, as a tagged message.
pub enum JobMessage {
    /// Bind a proxy definition into the environment's global scope.
    InstallProxy(ProxyDefinition),
    /// Resolve, preprocess and evaluate the module behind an identifier.
    EvaluateModule { identifier: Vec<u8> },
    /// Dispatch an event to an installed proxy.
    DispatchEvent { namespace: Vec<String>, name: String, event: String, payload: ScriptValue },
}

/// One unit of work: its arrival number and its message. The number is the
/// job's identity: jobs are executed in increasing number order.
pub struct Job {
    pub id: u64,
    pub message: JobMessage,
}

/// The queue's whole state, as the loop and the enqueuing threads see it.
pub struct JobQueue {
    /// Jobs accepted and not yet started, oldest first.
    pub pending: Vec<Job>,
    /// The job the loop is executing now, if any: never more than one.
    pub running: Option<u64>,
    /// The jobs already executed, in execution order.
    pub executed: Vec<u64>,
    /// The number the next accepted job receives.
    pub next_id: u64,
    /// Whether new work is accepted.
    pub accepting: bool,
}

/// The ids of a job sequence, in order.
pub open spec fn ids_of(jobs: Seq<Job>) -> Seq<u64> {
    jobs.map_values(|j: Job| j.id)
}

/// The running job as a sequence of zero or one ids.
pub open spec fn running_ids(r: Option<u64>) -> Seq<u64> {
    match r {
        Option::Some(x) => seq![x],
        Option::None => Seq::empty(),
    }
}

/// Every id the queue has ever accepted, in order: executed first, then the
/// running one, then the pending ones.
pub open spec fn all_ids(q: JobQueue) -> Seq<u64> {
    q.executed@ + running_ids(q.running) + ids_of(q.pending@)
}

/// The ids 0, 1, ..., n-1 in order.
pub open spec fn arrival_order(n: nat) -> Seq<u64> {
    Seq::new(n, |i: int| i as u64)
}

impl JobQueue {
    /// The queue's invariant: the executed ids, the running id and the
    /// pending ids together are exactly the accepted ids 0..next_id, in
    /// arrival order. Everything FIFO follows from this single equation: no
    /// job is lost, duplicated or reordered.
    pub open spec fn wf(self) -> bool {
        all_ids(self) =~= arrival_order(self.next_id as nat)
    }

    /// An empty, accepting queue.
    pub fn new() -> (q: JobQueue)
        ensures
            q.wf(),
            q.pending@.len() == 0,
            q.running is None,
            q.executed@.len() == 0,
            q.next_id == 0,
            q.accepting,
    {
        let q = JobQueue {
            pending: Vec::new(),
            running: Option::None,
            executed: Vec::new(),
            next_id: 0,
            accepting: true,
        };
        proof {
            assert(all_ids(q) =~= arrival_order(0));
        }
        q
    }

    /// Accepts one message, numbering it by arrival — or fails with the
    /// terminal error, changing nothing, once the queue no longer accepts
    /// work. The returned number is the job's queue position for all time.
    pub fn enqueue(&mut self, message: JobMessage) -> (r: Result<u64, EnvError>)
        requires
            old(self).wf(),
            old(self).next_id < u64::MAX,
        ensures
            final(self).wf(),
            old(self).accepting ==> {
                &&& r == Result::<u64, EnvError>::Ok(old(self).next_id)
                &&& final(self).pending@ == old(self).pending@.push(
                    Job { id: old(self).next_id, message },
                )
                &&& final(self).next_id == old(self).next_id + 1
                &&& final(self).running == old(self).running
                &&& final(self).executed@ == old(self).executed@
                &&& final(self).accepting
            },
            !old(self).accepting ==> {
                &&& r == Result::<u64, EnvError>::Err(EnvError::Unavailable)
                &&& final(self).pending@ == old(self).pending@
                &&& final(self).next_id == old(self).next_id
                &&& final(self).running == old(self).running
                &&& final(self).executed@ == old(self).executed@
                &&& !final(self).accepting
            },
    {
        if !self.accepting {
            return Result::Err(EnvError::Unavailable);
        }
        let id = self.next_id;
        self.pending.push(Job { id, message });
        self.next_id = self.next_id + 1;
        proof {
            assert(ids_of(self.pending@) =~= ids_of(old(self).pending@).push(id));
            assert(all_ids(*self) =~= all_ids(*old(self)).push(id));
            assert(arrival_order(self.next_id as nat) =~= arrival_order(
                old(self).next_id as nat,
            ).push(id));
        }
        Result::Ok(id)
    }

    /// Hands the loop its next job. While a job is running nothing is handed
    /// out — mutual exclusion is total, not per-resource. Otherwise the
    /// oldest pending job starts: strict FIFO arrival order.
    pub fn begin_next(&mut self) -> (r: Option<Job>)
        requires
            old(self).wf(),
        ensures
            final(self).wf(),
            old(self).running is Some ==> {
                &&& r is None
                &&& final(self).pending@ == old(self).pending@
                &&& final(self).running == old(self).running
                &&& final(self).executed@ == old(self).executed@
                &&& final(self).next_id == old(self).next_id
                &&& final(self).accepting == old(self).accepting
            },
            old(self).running is None && old(self).pending@.len() == 0 ==> {
                &&& r is None
                &&& final(self).pending@ == old(self).pending@
                &&& final(self).running == old(self).running
                &&& final(self).executed@ == old(self).executed@
                &&& final(self).next_id == old(self).next_id
                &&& final(self).accepting == old(self).accepting
            },
            old(self).running is None && old(self).pending@.len() > 0 ==> {
                &&& r == Option::Some(old(self).pending@[0])
                &&& final(self).pending@ == old(self).pending@.drop_first()
                &&& final(self).running == Option::Some(old(self).pending@[0].id)
                &&& final(self).executed@ == old(self).executed@
                &&& final(self).next_id == old(self).next_id
                &&& final(self).accepting == old(self).accepting
            },
    {
        if self.running.is_some() {
            return Option::None;
        }
        if self.pending.len() == 0 {
            return Option::None;
        }
        let job = self.pending.remove(0);
        self.running = Option::Some(job.id);
        proof {
            assert(self.pending@ =~= old(self).pending@.drop_first());
            assert(ids_of(old(self).pending@) =~= seq![job.id] + ids_of(self.pending@));
            assert(all_ids(*self) =~= all_ids(*old(self)));
        }
        Option::Some(job)
    }

    /// Marks the running job finished: its result has been delivered to its
    /// one caller, and it joins the execution log.
    pub fn finish_running(&mut self) -> (r: bool)
        requires
            old(self).wf(),
        ensures
            final(self).wf(),
            r == (old(self).running is Some),
            old(self).running matches Option::Some(id) ==> {
                &&& final(self).executed@ == old(self).executed@.push(id)
                &&& final(self).running is None
                &&& final(self).pending@ == old(self).pending@
                &&& final(self).next_id == old(self).next_id
                &&& final(self).accepting == old(self).accepting
            },
            old(self).running is None ==> {
                &&& final(self).executed@ == old(self).executed@
                &&& final(self).running == old(self).running
                &&& final(self).pending@ == old(self).pending@
                &&& final(self).next_id == old(self).next_id
                &&& final(self).accepting == old(self).accepting
            },
    {
        match self.running {
            Option::None => false,
            Option::Some(id) => {
                self.executed.push(id);
                self.running = Option::None;
                proof {
                    assert(all_ids(*self) =~= all_ids(*old(self)));
                }
                true
            },
        }
    }

    /// Stops accepting new work (teardown, or draining for shutdown). Jobs
    /// already accepted stay pending and still run to completion.
    pub fn stop_accepting(&mut self)
        requires
            old(self).wf(),
        ensures
            final(self).wf(),
            !final(self).accepting,
            final(self).pending@ == old(self).pending@,
            final(self).running == old(self).running,
            final(self).executed@ == old(self).executed@,
            final(self).next_id == old(self).next_id,
    {
        self.accepting = false;
        proof {
            assert(all_ids(*self) =~= all_ids(*old(self)));
        }
    }
}

/// Jobs execute in strict FIFO order of successful enqueue: the execution
/// log of a well-formed queue is exactly the arrival numbers 0, 1, 2, ... in
/// order — each position of the log holds its own index, so the log is
/// strictly monotonic.
pub proof fn law_fifo_execution(q: JobQueue)
    requires
        q.wf(),
    ensures
        forall|i: int| 0 <= i < q.executed@.len() ==> q.executed@[i] == i as u64,
        forall|i: int, j: int|
            0 <= i < j < q.executed@.len() ==> q.executed@[i] < q.executed@[j],
{
    assert forall|i: int| 0 <= i < q.executed@.len() implies q.executed@[i] == i as u64 by {
        assert(all_ids(q)[i] == q.executed@[i]);
        assert(arrival_order(q.next_id as nat)[i] == i as u64);
    };
}

/// Exactly the accepted jobs execute, each exactly once: once the queue is
/// drained (nothing pending, nothing running), the execution log holds every
/// accepted arrival number exactly once, in arrival order — N successful
/// enqueues mean exactly N executed job bodies.
pub proof fn law_all_jobs_execute_exactly_once(q: JobQueue)
    requires
        q.wf(),
        q.pending@.len() == 0,
        q.running is None,
    ensures
        q.executed@.len() == q.next_id,
        forall|i: int| 0 <= i < q.executed@.len() ==> q.executed@[i] == i as u64,
{
    assert(all_ids(q) =~= q.executed@);
    law_fifo_execution(q);
}

} // verus!
