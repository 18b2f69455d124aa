//! Job queue for signal processing and order execution.
//!
//! Pending jobs leave the queue highest priority first and, within one
//! priority, oldest first (the first enqueued on a tie).  A job in
//! processing is keyed by its id; a failed job is queued again until it has
//! used all its attempts.
use crate::clock::{new_id_u128, now_millis};
use crate::decimal::Dec;
use crate::entities::{
    ExchangeId, OrderRequest, OrderSide, OrderType, Signal, SignalStrength, TimeInForce,
    TradeDirection,
};
use std::collections::HashMap;
use vstd::prelude::*;

verus! {

broadcast use vstd::std_specs::hash::group_hash_axioms;

/// What a job does.
#[derive(Clone, Copy, Debug, PartialEq, Eq, Structural)]
pub enum JobType {
    ProcessSignal,
    ExecuteOrder,
    UpdatePosition,
    CheckStopLoss,
    ClosePosition,
    SyncExchange,
}

/// How urgent a job is, from lowest to highest.
#[derive(Clone, Copy, Debug, PartialEq, Eq, Structural, PartialOrd, Ord)]
pub enum JobPriority {
    Low,
    Normal,
    High,
    Critical,
}

/// The rank of a priority: Low 0, Normal 1, High 2, Critical 3.
pub open spec fn priority_rank(p: JobPriority) -> int {
    match p {
        JobPriority::Low => 0,
        JobPriority::Normal => 1,
        JobPriority::High => 2,
        JobPriority::Critical => 3,
    }
}

impl JobPriority {
    /// The rank of this priority.
    pub fn rank(&self) -> (r: u8)
        ensures
            r == priority_rank(*self),
    {
        match self {
            JobPriority::Low => 0,
            JobPriority::Normal => 1,
            JobPriority::High => 2,
            JobPriority::Critical => 3,
        }
    }
}

/// Where a job is in its life.
#[derive(Clone, Debug)]
pub enum JobStatus {
    Pending,
    Processing,
    Completed,
    Failed { error: String, retries: u32 },
    Cancelled,
}

impl JobStatus {
    /// An identical copy.
    pub fn duplicate(&self) -> (r: JobStatus)
        ensures
            r == *self,
    {
        match self {
            JobStatus::Pending => JobStatus::Pending,
            JobStatus::Processing => JobStatus::Processing,
            JobStatus::Completed => JobStatus::Completed,
            JobStatus::Failed { error, retries } => JobStatus::Failed {
                error: error.clone(),
                retries: *retries,
            },
            JobStatus::Cancelled => JobStatus::Cancelled,
        }
    }
}

/// What a job carries.
#[derive(Clone, Debug)]
pub enum JobPayload {
    Signal(Signal),
    Order(OrderRequest),
    PositionId(String),
    ExchangeSync { exchange: ExchangeId },
    Empty,
}

impl JobPayload {
    /// An identical copy.
    pub fn duplicate(&self) -> (r: JobPayload)
        ensures
            r == *self,
    {
        match self {
            JobPayload::Signal(s) => JobPayload::Signal(s.duplicate()),
            JobPayload::Order(o) => JobPayload::Order(o.duplicate()),
            JobPayload::PositionId(p) => JobPayload::PositionId(p.clone()),
            JobPayload::ExchangeSync { exchange } => JobPayload::ExchangeSync {
                exchange: *exchange,
            },
            JobPayload::Empty => JobPayload::Empty,
        }
    }
}

/// A job.  Instants are milliseconds since the Unix epoch.
#[derive(Clone, Debug)]
pub struct Job {
    pub id: u128,
    pub job_type: JobType,
    pub priority: JobPriority,
    pub payload: JobPayload,
    pub status: JobStatus,
    pub created_at: i64,
    pub started_at: Option<i64>,
    pub completed_at: Option<i64>,
    pub attempts: u32,
    pub max_attempts: u32,
}

/// `a` leaves the queue before `b`: higher priority, or the same priority
/// and created earlier.
pub open spec fn runs_before(a: Job, b: Job) -> bool {
    priority_rank(a.priority) > priority_rank(b.priority) || (priority_rank(a.priority)
        == priority_rank(b.priority) && a.created_at < b.created_at)
}

/// `job` marked as processing at `now`: one more attempt.
pub open spec fn started(job: Job, now: i64) -> Job {
    Job {
        status: JobStatus::Processing,
        started_at: Some(now),
        attempts: (job.attempts + 1) as u32,
        ..job
    }
}

/// `job` marked as completed at `now`.
pub open spec fn finished(job: Job, now: i64) -> Job {
    Job { status: JobStatus::Completed, completed_at: Some(now), ..job }
}

/// `job` marked as failed at `now` with `error`, its attempts recorded.
pub open spec fn failed(job: Job, error: String, now: i64) -> Job {
    Job {
        status: JobStatus::Failed { error, retries: job.attempts },
        completed_at: Some(now),
        ..job
    }
}

impl Job {
    /// An identical copy.
    pub fn duplicate(&self) -> (r: Job)
        ensures
            r == *self,
    {
        Job {
            id: self.id,
            job_type: self.job_type,
            priority: self.priority,
            payload: self.payload.duplicate(),
            status: self.status.duplicate(),
            created_at: self.created_at,
            started_at: self.started_at,
            completed_at: self.completed_at,
            attempts: self.attempts,
            max_attempts: self.max_attempts,
        }
    }

    /// A new pending job with a fresh random id, created now, with no
    /// attempts made and three allowed.
    pub fn new(job_type: JobType, priority: JobPriority, payload: JobPayload) -> (r: Job)
        ensures
            r.job_type == job_type,
            r.priority == priority,
            r.payload == payload,
            r.status == JobStatus::Pending,
            0 <= r.created_at <= crate::clock::latest_instant(),
            r.started_at is None,
            r.completed_at is None,
            r.attempts == 0,
            r.max_attempts == 3,
    {
        Job {
            id: new_id_u128(),
            job_type,
            priority,
            payload,
            status: JobStatus::Pending,
            created_at: now_millis(),
            started_at: None,
            completed_at: None,
            attempts: 0,
            max_attempts: 3,
        }
    }

    /// A new job of critical priority.
    pub fn critical(job_type: JobType, payload: JobPayload) -> (r: Job)
        ensures
            r.job_type == job_type,
            r.priority == JobPriority::Critical,
            r.payload == payload,
            r.status == JobStatus::Pending,
            0 <= r.created_at <= crate::clock::latest_instant(),
            r.started_at is None,
            r.completed_at is None,
            r.attempts == 0,
            r.max_attempts == 3,
    {
        Self::new(job_type, JobPriority::Critical, payload)
    }

    /// Marks the job as processing at `now`, counting one more attempt.
    pub fn mark_processing_at(&mut self, now: i64)
        requires
            old(self).attempts < u32::MAX,
        ensures
            *final(self) == started(*old(self), now),
    {
        self.status = JobStatus::Processing;
        self.started_at = Some(now);
        self.attempts = self.attempts + 1;
    }

    /// Marks the job as processing now.
    pub fn mark_processing(&mut self)
        requires
            old(self).attempts < u32::MAX,
        ensures
            exists|now: i64|
                0 <= now <= crate::clock::latest_instant() && *final(self) == started(
                    *old(self),
                    now,
                ),
    {
        let now = now_millis();
        self.mark_processing_at(now);
    }

    /// Marks the job as completed at `now`.
    pub fn mark_completed_at(&mut self, now: i64)
        ensures
            *final(self) == finished(*old(self), now),
    {
        self.status = JobStatus::Completed;
        self.completed_at = Some(now);
    }

    /// Marks the job as completed now.
    pub fn mark_completed(&mut self)
        ensures
            exists|now: i64|
                0 <= now <= crate::clock::latest_instant() && *final(self) == finished(
                    *old(self),
                    now,
                ),
    {
        let now = now_millis();
        self.mark_completed_at(now);
    }

    /// Marks the job as failed at `now`, recording the error and the
    /// attempts made.
    pub fn mark_failed_at(&mut self, error: String, now: i64)
        ensures
            *final(self) == failed(*old(self), error, now),
    {
        self.status = JobStatus::Failed { error, retries: self.attempts };
        self.completed_at = Some(now);
    }

    /// Marks the job as failed now.
    pub fn mark_failed(&mut self, error: String)
        ensures
            exists|now: i64|
                0 <= now <= crate::clock::latest_instant() && *final(self) == failed(
                    *old(self),
                    error,
                    now,
                ),
    {
        let now = now_millis();
        self.mark_failed_at(error, now);
    }

    /// Whether another attempt is allowed.
    pub fn can_retry(&self) -> (r: bool)
        ensures
            r == (self.attempts < self.max_attempts),
    {
        self.attempts < self.max_attempts
    }
}

/// Events the queue emits.
#[derive(Clone, Debug)]
pub enum JobQueueEvent {
    JobAdded { job_id: u128, job_type: JobType },
    JobStarted { job_id: u128 },
    JobCompleted { job_id: u128 },
    JobFailed { job_id: u128, error: String },
    JobCancelled { job_id: u128 },
    QueueEmpty,
}

/// Queue limits.
#[derive(Clone, Debug)]
pub struct JobQueueConfig {
    /// Most pending jobs.
    pub max_queue_size: usize,
    /// Processing timeout, seconds.
    pub processing_timeout_secs: u64,
    /// Most jobs in processing at once.
    pub max_concurrent_jobs: usize,
}

impl JobQueueConfig {
    /// 1000 pending jobs, a 30 s timeout, 5 jobs at once.
    pub fn default() -> (r: Self)
        ensures
            r.max_queue_size == 1000,
            r.processing_timeout_secs == 30,
            r.max_concurrent_jobs == 5,
    {
        JobQueueConfig { max_queue_size: 1000, processing_timeout_secs: 30, max_concurrent_jobs: 5 }
    }
}

/// Counts of the queue's jobs.
#[derive(Clone, Debug)]
pub struct QueueStats {
    pub pending: usize,
    pub processing: usize,
    pub completed: usize,
    pub failed: usize,
}

/// The index of the job that leaves first: the first one that no later job
/// runs before.
pub open spec fn best_index(s: Seq<Job>) -> int
    decreases s.len(),
{
    if s.len() <= 1 {
        0
    } else {
        let i = best_index(s.drop_last());
        if runs_before(s.last(), s[i]) {
            s.len() - 1
        } else {
            i
        }
    }
}

/// The number of jobs in `s` with status Completed.
pub open spec fn count_completed(s: Seq<Job>) -> nat
    decreases s.len(),
{
    if s.len() == 0 {
        0
    } else {
        count_completed(s.drop_last()) + if s.last().status is Completed {
            1nat
        } else {
            0nat
        }
    }
}

/// The number of jobs in `s` with status Failed.
pub open spec fn count_failed(s: Seq<Job>) -> nat
    decreases s.len(),
{
    if s.len() == 0 {
        0
    } else {
        count_failed(s.drop_last()) + if s.last().status is Failed {
            1nat
        } else {
            0nat
        }
    }
}

/// `s` without the jobs whose id is `id`, in the same order.
pub open spec fn without_id(s: Seq<Job>, id: u128) -> Seq<Job> {
    s.filter(|j: Job| j.id != id)
}

/// The completed history after adding `job`: at most 1000 entries, the
/// oldest dropped first.
pub open spec fn capped_history(h: Seq<Job>, job: Job) -> Seq<Job> {
    let pushed = h.push(job);
    if pushed.len() > 1000 {
        pushed.drop_first()
    } else {
        pushed
    }
}

/// The job queue.
pub struct JobQueue {
    config: JobQueueConfig,
    pending: Vec<Job>,
    processing: HashMap<u128, Job>,
    completed: Vec<Job>,
    events: Vec<JobQueueEvent>,
}

/// Taking the next job at `now` took the queue from pending `p0`,
/// processing `q0` and events `e0` to `p1`, `q1` and `e1` and answered
/// `r`: the pending job that leaves first, marked as processing at `now`,
/// removed from the pending jobs, kept in processing under its id, with
/// its start announced.
pub open spec fn dequeued(
    p0: Seq<Job>,
    q0: Map<u128, Job>,
    e0: Seq<JobQueueEvent>,
    p1: Seq<Job>,
    q1: Map<u128, Job>,
    e1: Seq<JobQueueEvent>,
    now: i64,
    r: Option<Job>,
) -> bool {
    let i = best_index(p0);
    let job = started(p0[i], now);
    &&& r == Some(job)
    &&& p1 == p0.remove(i)
    &&& q1 == q0.insert(job.id, job)
    &&& e1 == e0.push(JobQueueEvent::JobStarted { job_id: job.id })
}

impl JobQueue {
    /// Never more jobs in processing than allowed at once, each keyed by its
    /// own id.
    pub closed spec fn wf(&self) -> bool {
        &&& self.processing@.dom().finite()
        &&& self.processing@.len() <= self.config.max_concurrent_jobs
        &&& forall|k: u128| #[trigger] self.processing@.contains_key(k) ==> self.processing@[k].id == k
    }

    pub closed spec fn cfg(&self) -> JobQueueConfig {
        self.config
    }

    /// The pending jobs, in the order they were queued.
    pub closed spec fn pending_jobs(&self) -> Seq<Job> {
        self.pending@
    }

    /// The jobs in processing, by id.
    pub closed spec fn processing_jobs(&self) -> Map<u128, Job> {
        self.processing@
    }

    /// The finished jobs, oldest first.
    pub closed spec fn history(&self) -> Seq<Job> {
        self.completed@
    }

    pub closed spec fn pending_events(&self) -> Seq<JobQueueEvent> {
        self.events@
    }

    /// What the type invariant promises, for callers.
    pub proof fn lemma_wf(&self)
        requires
            self.wf(),
        ensures
            self.processing_jobs().dom().finite(),
            self.processing_jobs().len() <= self.cfg().max_concurrent_jobs,
            forall|k: u128| #[trigger]
                self.processing_jobs().contains_key(k) ==> self.processing_jobs()[k].id == k,
    {
    }

    /// An empty queue.
    pub fn new(config: JobQueueConfig) -> (r: Self)
        ensures
            r.wf(),
            r.cfg() == config,
            r.pending_jobs().len() == 0,
            r.processing_jobs() == Map::<u128, Job>::empty(),
            r.history().len() == 0,
            r.pending_events().len() == 0,
    {
        JobQueue {
            config,
            pending: Vec::new(),
            processing: HashMap::new(),
            completed: Vec::new(),
            events: Vec::new(),
        }
    }

    /// An empty queue with the default limits.
    pub fn default() -> (r: Self)
        ensures
            r.wf(),
            r.cfg().max_queue_size == 1000,
            r.cfg().max_concurrent_jobs == 5,
            r.cfg().processing_timeout_secs == 30,
            r.pending_jobs().len() == 0,
            r.processing_jobs() == Map::<u128, Job>::empty(),
            r.history().len() == 0,
            r.pending_events().len() == 0,
    {
        Self::new(JobQueueConfig::default())
    }

    /// Hands out the events emitted so far and forgets them.
    pub fn drain_events(&mut self) -> (r: Vec<JobQueueEvent>)
        requires
            old(self).wf(),
        ensures
            final(self).wf(),
            r@ == old(self).pending_events(),
            final(self).pending_events().len() == 0,
            final(self).cfg() == old(self).cfg(),
            final(self).pending_jobs() == old(self).pending_jobs(),
            final(self).processing_jobs() == old(self).processing_jobs(),
            final(self).history() == old(self).history(),
    {
        let mut out = Vec::new();
        std::mem::swap(&mut out, &mut self.events);
        out
    }

    /// Adds a job; refused with "Fila cheia" when the pending jobs are at
    /// their maximum.
    pub fn enqueue(&mut self, job: Job) -> (r: Result<u128, String>)
        requires
            old(self).wf(),
        ensures
            final(self).wf(),
            final(self).cfg() == old(self).cfg(),
            final(self).processing_jobs() == old(self).processing_jobs(),
            final(self).history() == old(self).history(),
            old(self).pending_jobs().len() >= old(self).cfg().max_queue_size ==> {
                &&& r matches Err(e) && e@ == "Fila cheia"@
                &&& final(self).pending_jobs() == old(self).pending_jobs()
                &&& final(self).pending_events() == old(self).pending_events()
            },
            old(self).pending_jobs().len() < old(self).cfg().max_queue_size ==> {
                &&& r == Ok::<u128, String>(job.id)
                &&& final(self).pending_jobs() == old(self).pending_jobs().push(job)
                &&& final(self).pending_events() == old(self).pending_events().push(
                    JobQueueEvent::JobAdded { job_id: job.id, job_type: job.job_type },
                )
            },
    {
        if self.pending.len() >= self.config.max_queue_size {
            return Err("Fila cheia".to_string());
        }
        let job_id = job.id;
        let job_type = job.job_type;
        self.pending.push(job);
        self.events.push(JobQueueEvent::JobAdded { job_id, job_type });
        Ok(job_id)
    }

    /// Queues a signal for processing, its priority set by its strength:
    /// strong high, moderate normal, weak low.
    pub fn enqueue_signal(&mut self, signal: Signal) -> (r: Result<u128, String>)
        requires
            old(self).wf(),
        ensures
            final(self).wf(),
            final(self).cfg() == old(self).cfg(),
            final(self).processing_jobs() == old(self).processing_jobs(),
            final(self).history() == old(self).history(),
            old(self).pending_jobs().len() >= old(self).cfg().max_queue_size ==> {
                &&& r matches Err(e) && e@ == "Fila cheia"@
                &&& final(self).pending_jobs() == old(self).pending_jobs()
            },
            old(self).pending_jobs().len() < old(self).cfg().max_queue_size ==> {
                let job = final(self).pending_jobs().last();
                &&& final(self).pending_jobs() == old(self).pending_jobs().push(job)
                &&& r == Ok::<u128, String>(job.id)
                &&& job.job_type == JobType::ProcessSignal
                &&& job.priority == signal_priority(signal.strength)
                &&& job.payload == JobPayload::Signal(signal)
                &&& job.status == JobStatus::Pending
                &&& job.attempts == 0
                &&& job.max_attempts == 3
            },
    {
        let priority = match signal.strength {
            SignalStrength::Strong => JobPriority::High,
            SignalStrength::Moderate => JobPriority::Normal,
            SignalStrength::Weak => JobPriority::Low,
        };
        let job = Job::new(JobType::ProcessSignal, priority, JobPayload::Signal(signal));
        self.enqueue(job)
    }

    /// Queues an order for execution at `priority`.
    pub fn enqueue_order(&mut self, order: OrderRequest, priority: JobPriority) -> (r: Result<
        u128,
        String,
    >)
        requires
            old(self).wf(),
        ensures
            final(self).wf(),
            final(self).cfg() == old(self).cfg(),
            final(self).processing_jobs() == old(self).processing_jobs(),
            final(self).history() == old(self).history(),
            old(self).pending_jobs().len() >= old(self).cfg().max_queue_size ==> {
                &&& r matches Err(e) && e@ == "Fila cheia"@
                &&& final(self).pending_jobs() == old(self).pending_jobs()
            },
            old(self).pending_jobs().len() < old(self).cfg().max_queue_size ==> {
                let job = final(self).pending_jobs().last();
                &&& final(self).pending_jobs() == old(self).pending_jobs().push(job)
                &&& r == Ok::<u128, String>(job.id)
                &&& job.job_type == JobType::ExecuteOrder
                &&& job.priority == priority
                &&& job.payload == JobPayload::Order(order)
                &&& job.status == JobStatus::Pending
                &&& job.attempts == 0
                &&& job.max_attempts == 3
            },
    {
        let job = Job::new(JobType::ExecuteOrder, priority, JobPayload::Order(order));
        self.enqueue(job)
    }

    /// The index of the pending job that leaves first.
    fn best_pending(&self) -> (r: usize)
        requires
            self.pending@.len() > 0,
        ensures
            r == best_index(self.pending@),
            r < self.pending@.len(),
    {
        let mut best: usize = 0;
        let mut i: usize = 1;
        proof {
            lemma_best_index_in_range(self.pending@.take(1));
        }
        while i < self.pending.len()
            invariant
                1 <= i <= self.pending@.len(),
                best == best_index(self.pending@.take(i as int)),
                best < i,
            decreases self.pending@.len() - i,
        {
            let ghost s = self.pending@.take(i as int + 1);
            assert(s.drop_last() =~= self.pending@.take(i as int));
            let a = &self.pending[i];
            let b = &self.pending[best];
            let ra = a.priority.rank();
            let rb = b.priority.rank();
            if ra > rb || (ra == rb && a.created_at < b.created_at) {
                best = i;
            }
            i += 1;
        }
        assert(self.pending@.take(self.pending@.len() as int) =~= self.pending@);
        best
    }

    /// Takes the next job at `now`: none while the jobs in processing are
    /// at their maximum or nothing is pending; otherwise the pending job
    /// that leaves first, marked as processing and kept in processing
    /// under its id.
    pub fn dequeue_at(&mut self, now: i64) -> (r: Option<Job>)
        requires
            old(self).wf(),
            forall|i: int|
                0 <= i < old(self).pending_jobs().len() ==> #[trigger] old(
                    self,
                ).pending_jobs()[i].attempts < u32::MAX,
        ensures
            final(self).wf(),
            final(self).cfg() == old(self).cfg(),
            final(self).history() == old(self).history(),
            (old(self).processing_jobs().len() >= old(self).cfg().max_concurrent_jobs
                || old(self).pending_jobs().len() == 0) ==> {
                &&& r is None
                &&& final(self).pending_jobs() == old(self).pending_jobs()
                &&& final(self).processing_jobs() == old(self).processing_jobs()
                &&& final(self).pending_events() == old(self).pending_events()
            },
            (old(self).processing_jobs().len() < old(self).cfg().max_concurrent_jobs
                && old(self).pending_jobs().len() > 0) ==> {
                let i = best_index(old(self).pending_jobs());
                let job = started(old(self).pending_jobs()[i], now);
                &&& r == Some(job)
                &&& final(self).pending_jobs() == old(self).pending_jobs().remove(i)
                &&& final(self).processing_jobs() == old(self).processing_jobs().insert(
                    job.id,
                    job,
                )
                &&& final(self).pending_events() == old(self).pending_events().push(
                    JobQueueEvent::JobStarted { job_id: job.id },
                )
            },
    {
        if self.processing.len() >= self.config.max_concurrent_jobs {
            return None;
        }
        if self.pending.len() == 0 {
            return None;
        }
        let idx = self.best_pending();
        let mut job = self.pending.remove(idx);
        job.mark_processing_at(now);
        let job_id = job.id;
        let copy = job.duplicate();
        proof {
            if self.processing@.contains_key(job_id) {
                assert(self.processing@.insert(job_id, copy).len() == self.processing@.len());
            }
        }
        self.processing.insert(job_id, copy);
        self.events.push(JobQueueEvent::JobStarted { job_id });
        Some(job)
    }

    /// Takes the next job now: none while the jobs in processing are at
    /// their maximum or nothing is pending; otherwise the pending job that
    /// leaves first, marked as processing at the current instant, removed
    /// from the pending jobs and kept in processing under its id.
    pub fn dequeue(&mut self) -> (r: Option<Job>)
        requires
            old(self).wf(),
            forall|i: int|
                0 <= i < old(self).pending_jobs().len() ==> #[trigger] old(
                    self,
                ).pending_jobs()[i].attempts < u32::MAX,
        ensures
            final(self).wf(),
            final(self).cfg() == old(self).cfg(),
            final(self).history() == old(self).history(),
            (old(self).processing_jobs().len() >= old(self).cfg().max_concurrent_jobs
                || old(self).pending_jobs().len() == 0) ==> {
                &&& r is None
                &&& final(self).pending_jobs() == old(self).pending_jobs()
                &&& final(self).processing_jobs() == old(self).processing_jobs()
                &&& final(self).pending_events() == old(self).pending_events()
            },
            (old(self).processing_jobs().len() < old(self).cfg().max_concurrent_jobs
                && old(self).pending_jobs().len() > 0) ==> exists|now: i64|
                0 <= now <= crate::clock::latest_instant() && #[trigger] dequeued(
                    old(self).pending_jobs(),
                    old(self).processing_jobs(),
                    old(self).pending_events(),
                    final(self).pending_jobs(),
                    final(self).processing_jobs(),
                    final(self).pending_events(),
                    now,
                    r,
                ),
    {
        let now = now_millis();
        let r = self.dequeue_at(now);
        proof {
            if old(self).processing_jobs().len() < old(self).cfg().max_concurrent_jobs
                && old(self).pending_jobs().len() > 0 {
                assert(dequeued(
                    old(self).pending_jobs(),
                    old(self).processing_jobs(),
                    old(self).pending_events(),
                    self.pending_jobs(),
                    self.processing_jobs(),
                    self.pending_events(),
                    now,
                    r,
                ));
            }
        }
        r
    }

    /// Completes the job in processing with `job_id` at `now`, moving it to
    /// the history (which keeps the last 1000); nothing happens if no such
    /// job is in processing.
    pub fn complete_at(&mut self, job_id: u128, now: i64)
        requires
            old(self).wf(),
        ensures
            final(self).wf(),
            final(self).cfg() == old(self).cfg(),
            final(self).pending_jobs() == old(self).pending_jobs(),
            final(self).processing_jobs() == old(self).processing_jobs().remove(job_id),
            old(self).processing_jobs().contains_key(job_id) ==> {
                &&& final(self).history() == capped_history(
                    old(self).history(),
                    finished(old(self).processing_jobs()[job_id], now),
                )
                &&& final(self).pending_events() == old(self).pending_events().push(
                    JobQueueEvent::JobCompleted { job_id },
                )
            },
            !old(self).processing_jobs().contains_key(job_id) ==> {
                &&& final(self).history() == old(self).history()
                &&& final(self).pending_events() == old(self).pending_events()
            },
    {
        match self.processing.remove(&job_id) {
            Some(mut job) => {
                job.mark_completed_at(now);
                self.completed.push(job);
                if self.completed.len() > 1000 {
                    self.completed.remove(0);
                }
                self.events.push(JobQueueEvent::JobCompleted { job_id });
            },
            None => {},
        }
    }

    /// Completes the job with `job_id` now, moving it to the history (which
    /// keeps the last 1000); nothing happens if no such job is in
    /// processing.
    pub fn complete(&mut self, job_id: u128)
        requires
            old(self).wf(),
        ensures
            final(self).wf(),
            final(self).cfg() == old(self).cfg(),
            final(self).pending_jobs() == old(self).pending_jobs(),
            final(self).processing_jobs() == old(self).processing_jobs().remove(job_id),
            old(self).processing_jobs().contains_key(job_id) ==> {
                &&& final(self).pending_events() == old(self).pending_events().push(
                    JobQueueEvent::JobCompleted { job_id },
                )
                &&& exists|now: i64|
                    0 <= now <= crate::clock::latest_instant() && final(self).history()
                        == capped_history(
                        old(self).history(),
                        #[trigger] finished(old(self).processing_jobs()[job_id], now),
                    )
            },
            !old(self).processing_jobs().contains_key(job_id) ==> {
                &&& final(self).history() == old(self).history()
                &&& final(self).pending_events() == old(self).pending_events()
            },
    {
        let now = now_millis();
        self.complete_at(job_id, now);
    }

    /// Records a failure of the job in processing with `job_id` at `now`:
    /// while it has attempts left it is queued again as pending, otherwise
    /// it is marked failed and moved to the history.  Nothing happens if no
    /// such job is in processing.
    pub fn fail_at(&mut self, job_id: u128, error: String, now: i64)
        requires
            old(self).wf(),
        ensures
            final(self).wf(),
            final(self).cfg() == old(self).cfg(),
            final(self).processing_jobs() == old(self).processing_jobs().remove(job_id),
            !old(self).processing_jobs().contains_key(job_id) ==> {
                &&& final(self).pending_jobs() == old(self).pending_jobs()
                &&& final(self).history() == old(self).history()
                &&& final(self).pending_events() == old(self).pending_events()
            },
            old(self).processing_jobs().contains_key(job_id) ==> {
                let job = old(self).processing_jobs()[job_id];
                if job.attempts < job.max_attempts {
                    &&& final(self).pending_jobs() == old(self).pending_jobs().push(
                        Job { status: JobStatus::Pending, ..job },
                    )
                    &&& final(self).history() == old(self).history()
                    &&& final(self).pending_events() == old(self).pending_events()
                } else {
                    &&& final(self).pending_jobs() == old(self).pending_jobs()
                    &&& final(self).history() == old(self).history().push(failed(job, error, now))
                    &&& final(self).pending_events() == old(self).pending_events().push(
                        JobQueueEvent::JobFailed { job_id, error },
                    )
                }
            },
    {
        match self.processing.remove(&job_id) {
            Some(mut job) => {
                if job.can_retry() {
                    job.status = JobStatus::Pending;
                    self.pending.push(job);
                } else {
                    let message = error.clone();
                    job.mark_failed_at(error, now);
                    self.completed.push(job);
                    self.events.push(JobQueueEvent::JobFailed { job_id, error: message });
                }
            },
            None => {},
        }
    }

    /// Records a failure of the job with `job_id` now: while it has
    /// attempts left it is queued again as pending, otherwise it is marked
    /// failed at the current instant and moved to the history.  Nothing
    /// happens if no such job is in processing.
    pub fn fail(&mut self, job_id: u128, error: String)
        requires
            old(self).wf(),
        ensures
            final(self).wf(),
            final(self).cfg() == old(self).cfg(),
            final(self).processing_jobs() == old(self).processing_jobs().remove(job_id),
            !old(self).processing_jobs().contains_key(job_id) ==> {
                &&& final(self).pending_jobs() == old(self).pending_jobs()
                &&& final(self).history() == old(self).history()
                &&& final(self).pending_events() == old(self).pending_events()
            },
            old(self).processing_jobs().contains_key(job_id) ==> {
                let job = old(self).processing_jobs()[job_id];
                if job.attempts < job.max_attempts {
                    &&& final(self).pending_jobs() == old(self).pending_jobs().push(
                        Job { status: JobStatus::Pending, ..job },
                    )
                    &&& final(self).history() == old(self).history()
                    &&& final(self).pending_events() == old(self).pending_events()
                } else {
                    &&& final(self).pending_jobs() == old(self).pending_jobs()
                    &&& final(self).pending_events() == old(self).pending_events().push(
                        JobQueueEvent::JobFailed { job_id, error },
                    )
                    &&& exists|now: i64|
                        0 <= now <= crate::clock::latest_instant() && final(self).history()
                            == old(self).history().push(#[trigger] failed(job, error, now))
                }
            },
    {
        let now = now_millis();
        self.fail_at(job_id, error, now);
    }

    /// Cancels every pending job with `job_id`, keeping the others in
    /// order; true when one was found.
    pub fn cancel(&mut self, job_id: u128) -> (r: bool)
        requires
            old(self).wf(),
        ensures
            final(self).wf(),
            final(self).cfg() == old(self).cfg(),
            final(self).processing_jobs() == old(self).processing_jobs(),
            final(self).history() == old(self).history(),
            final(self).pending_jobs() == without_id(old(self).pending_jobs(), job_id),
            r == exists|i: int|
                0 <= i < old(self).pending_jobs().len() && #[trigger] old(
                    self,
                ).pending_jobs()[i].id == job_id,
            final(self).pending_events().subrange(0, old(self).pending_events().len() as int)
                == old(self).pending_events(),
            forall|k: int|
                old(self).pending_events().len() <= k < final(self).pending_events().len()
                    ==> #[trigger] final(self).pending_events()[k] == (JobQueueEvent::JobCancelled {
                    job_id,
                }),
            r == (final(self).pending_events().len() > old(self).pending_events().len()),
    {
        let ghost old_pending = self.pending@;
        let ghost old_events = self.events@;
        let mut jobs: Vec<Job> = Vec::new();
        std::mem::swap(&mut jobs, &mut self.pending);
        let mut found = false;
        let mut i: usize = 0;
        while i < jobs.len()
            invariant
                jobs@ == old_pending,
                i <= jobs@.len(),
                self.pending@ == without_id(jobs@.take(i as int), job_id),
                found == exists|k: int| 0 <= k < i && #[trigger] jobs@[k].id == job_id,
                self.events@.subrange(0, old_events.len() as int) == old_events,
                self.events@.len() >= old_events.len(),
                forall|k: int|
                    old_events.len() <= k < self.events@.len() ==> #[trigger] self.events@[k]
                        == (JobQueueEvent::JobCancelled { job_id }),
                found == (self.events@.len() > old_events.len()),
                self.config == old(self).config,
                self.processing == old(self).processing,
                self.completed == old(self).completed,
            decreases jobs@.len() - i,
        {
            let ghost prefix = jobs@.take(i as int);
            assert(jobs@.take(i as int + 1) =~= prefix.push(jobs@[i as int]));
            reveal(Seq::filter);
            assert(prefix.push(jobs@[i as int]).drop_last() =~= prefix);
            let job = jobs[i].duplicate();
            if job.id == job_id {
                found = true;
                let ghost before = self.events@;
                self.events.push(JobQueueEvent::JobCancelled { job_id });
                assert(self.events@.subrange(0, old_events.len() as int) =~= before.subrange(
                    0,
                    old_events.len() as int,
                ));
            } else {
                self.pending.push(job);
            }
            i += 1;
        }
        assert(jobs@.take(jobs@.len() as int) =~= jobs@);
        found
    }

    /// The number of pending jobs.
    pub fn pending_count(&self) -> (r: usize)
        ensures
            r == self.pending_jobs().len(),
    {
        self.pending.len()
    }

    /// The number of jobs in processing.
    pub fn processing_count(&self) -> (r: usize)
        ensures
            r == self.processing_jobs().len(),
    {
        self.processing.len()
    }

    /// Whether nothing is pending or in processing.
    pub fn is_empty(&self) -> (r: bool)
        ensures
            r == (self.pending_jobs().len() == 0 && self.processing_jobs().len() == 0),
    {
        self.pending.len() == 0 && self.processing.len() == 0
    }

    /// Drops every pending job.
    pub fn clear(&mut self)
        requires
            old(self).wf(),
        ensures
            final(self).wf(),
            final(self).pending_jobs().len() == 0,
            final(self).cfg() == old(self).cfg(),
            final(self).processing_jobs() == old(self).processing_jobs(),
            final(self).history() == old(self).history(),
            final(self).pending_events() == old(self).pending_events(),
    {
        self.pending.clear();
    }

    /// Counts pending, processing, completed and failed jobs.
    pub fn stats(&self) -> (r: QueueStats)
        ensures
            r.pending == self.pending_jobs().len(),
            r.processing == self.processing_jobs().len(),
            r.completed == count_completed(self.history()),
            r.failed == count_failed(self.history()),
    {
        let mut completed: usize = 0;
        let mut failed: usize = 0;
        let mut i: usize = 0;
        while i < self.completed.len()
            invariant
                i <= self.completed@.len(),
                completed == count_completed(self.completed@.take(i as int)),
                failed == count_failed(self.completed@.take(i as int)),
                completed <= i,
                failed <= i,
            decreases self.completed@.len() - i,
        {
            assert(self.completed@.take(i as int + 1).drop_last() =~= self.completed@.take(
                i as int,
            ));
            match &self.completed[i].status {
                JobStatus::Completed => {
                    completed += 1;
                },
                JobStatus::Failed { .. } => {
                    failed += 1;
                },
                _ => {},
            }
            i += 1;
        }
        assert(self.completed@.take(self.completed@.len() as int) =~= self.completed@);
        QueueStats {
            pending: self.pending.len(),
            processing: self.processing.len(),
            completed,
            failed,
        }
    }
}

/// The priority a signal's job gets: strong high, moderate normal, weak low.
pub open spec fn signal_priority(s: SignalStrength) -> JobPriority {
    match s {
        SignalStrength::Strong => JobPriority::High,
        SignalStrength::Moderate => JobPriority::Normal,
        SignalStrength::Weak => JobPriority::Low,
    }
}

/// The limit order a signal suggests, for `quantity`: buy for a long
/// signal, sell for a short one, at the suggested entry (else the trigger
/// price), with the suggested stops, good till cancelled, leverage 10.
pub fn signal_to_order(signal: &Signal, quantity: Dec) -> (r: Option<OrderRequest>)
    ensures
        r matches Some(o) && o.symbol@ == signal.symbol@ && o.side == (match signal.direction {
            TradeDirection::Long => OrderSide::Buy,
            TradeDirection::Short => OrderSide::Sell,
        }) && o.order_type == OrderType::Limit && o.quantity == quantity && o.price == Some(
            match signal.suggested_entry {
                Some(e) => e,
                None => signal.trigger_price,
            },
        ) && o.stop_price is None && o.stop_loss == signal.suggested_stop_loss && o.take_profit
            == signal.suggested_take_profit && o.time_in_force == TimeInForce::GTC && o.leverage
            == Some(10u32) && !o.reduce_only,
{
    let side = match signal.direction {
        TradeDirection::Long => OrderSide::Buy,
        TradeDirection::Short => OrderSide::Sell,
    };
    let price = match signal.suggested_entry {
        Some(e) => e,
        None => signal.trigger_price,
    };
    Some(
        OrderRequest {
            symbol: signal.symbol.clone(),
            side,
            order_type: OrderType::Limit,
            quantity,
            price: Some(price),
            stop_price: None,
            stop_loss: signal.suggested_stop_loss,
            take_profit: signal.suggested_take_profit,
            time_in_force: TimeInForce::GTC,
            leverage: Some(10),
            reduce_only: false,
        },
    )
}

pub proof fn lemma_best_index_in_range(s: Seq<Job>)
    requires
        s.len() > 0,
    ensures
        0 <= best_index(s) < s.len(),
    decreases s.len(),
{
    if s.len() > 1 {
        lemma_best_index_in_range(s.drop_last());
    }
}

/// The job that leaves the queue first has no pending job ahead of it: none
/// has a higher priority, and none of the same priority is older.
pub proof fn law_dequeue_order(s: Seq<Job>)
    requires
        s.len() > 0,
    ensures
        0 <= best_index(s) < s.len(),
        forall|j: int| 0 <= j < s.len() ==> !runs_before(#[trigger] s[j], s[best_index(s)]),
    decreases s.len(),
{
    lemma_best_index_in_range(s);
    if s.len() > 1 {
        let t = s.drop_last();
        law_dequeue_order(t);
        assert forall|j: int| 0 <= j < s.len() implies !runs_before(
            #[trigger] s[j],
            s[best_index(s)],
        ) by {
            if j < s.len() - 1 {
                assert(s[j] == t[j]);
                assert(!runs_before(t[j], t[best_index(t)]));
            }
        }
    }
}

/// Among jobs that tie, the one queued first leaves first: no job before
/// the chosen one is as urgent and as old.
pub proof fn law_dequeue_fifo_on_ties(s: Seq<Job>)
    requires
        s.len() > 0,
    ensures
        forall|j: int|
            0 <= j < best_index(s) ==> runs_before(s[best_index(s)], #[trigger] s[j]),
    decreases s.len(),
{
    lemma_best_index_in_range(s);
    if s.len() > 1 {
        let t = s.drop_last();
        law_dequeue_fifo_on_ties(t);
        law_dequeue_order(t);
        lemma_best_index_in_range(t);
        assert forall|j: int| 0 <= j < best_index(s) implies runs_before(
            s[best_index(s)],
            #[trigger] s[j],
        ) by {
            assert(s[j] == t[j]);
            if best_index(s) == s.len() - 1 {
                if j < best_index(t) {
                    assert(runs_before(t[best_index(t)], t[j]));
                } else if j > best_index(t) {
                    assert(!runs_before(t[j], t[best_index(t)]));
                }
            }
        }
    }
}

} // verus!
