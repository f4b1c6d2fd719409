//! Bounded scheduling of a batch: which job is admitted next, how many run at
//! once, and when every job has reached a terminal state. The caller runs the
//! fetches; this machine decides and keeps count.

use vstd::prelude::*;

verus! {

/// Where one job of the batch stands.
#[derive(Debug, Clone, Copy, PartialEq, Eq, Structural)]
pub enum JobStatus {
    Pending,
    Running,
    Succeeded,
    Failed,
}

/// What the scheduling loop is to do next.
#[derive(Debug, Clone, Copy, PartialEq, Eq, Structural)]
pub enum SchedulerAction {
    /// Launch the job at this index: an admission slot is taken for it.
    Start(usize),
    /// Every slot is taken, or no job is left to launch: wait for a running
    /// job to finish.
    Wait,
    /// Every job has reached a terminal state.
    Done,
}

/// A completion was reported for a job that is not running.
#[derive(Debug, Clone, Copy, PartialEq, Eq, Structural)]
pub enum SchedulerError {
    NotRunning,
}

/// The aggregate result of a settled batch.
#[derive(Debug, Clone, Copy, PartialEq, Eq, Structural)]
pub struct BatchOutcome {
    pub attempted: usize,
    pub failures: usize,
}

/// Raised only when every job of a non-empty batch failed.
#[derive(Debug, Clone, Copy, PartialEq, Eq, Structural)]
pub enum BatchError {
    AllFailed(usize),
}

pub open spec fn is_settled(st: JobStatus) -> bool {
    st == JobStatus::Succeeded || st == JobStatus::Failed
}

/// How many entries of `s` are `st`.
pub open spec fn count_status(s: Seq<JobStatus>, st: JobStatus) -> nat
    decreases s.len(),
{
    if s.len() == 0 {
        0
    } else {
        count_status(s.drop_last(), st) + if s.last() == st {
            1nat
        } else {
            0nat
        }
    }
}

proof fn lemma_count_update(s: Seq<JobStatus>, i: int, v: JobStatus, st: JobStatus)
    requires
        0 <= i < s.len(),
    ensures
        count_status(s.update(i, v), st) + (if s[i] == st {
            1nat
        } else {
            0nat
        }) == count_status(s, st) + (if v == st {
            1nat
        } else {
            0nat
        }),
    decreases s.len(),
{
    if i == s.len() - 1 {
        assert(s.update(i, v).drop_last() =~= s.drop_last());
    } else {
        lemma_count_update(s.drop_last(), i, v, st);
        assert(s.update(i, v).drop_last() =~= s.drop_last().update(i, v));
    }
}

pub proof fn lemma_count_zero(s: Seq<JobStatus>, st: JobStatus)
    ensures
        count_status(s, st) == 0 <==> forall|i: int| 0 <= i < s.len() ==> s[i] != st,
    decreases s.len(),
{
    if s.len() > 0 {
        lemma_count_zero(s.drop_last(), st);
        if count_status(s, st) == 0 {
            assert forall|i: int| 0 <= i < s.len() implies s[i] != st by {
                if i < s.len() - 1 {
                    assert(s.drop_last()[i] == s[i]);
                }
            }
        } else if s.last() != st {
            let i = choose|i: int| 0 <= i < s.len() - 1 && s.drop_last()[i] == st;
            assert(s[i] == st);
        }
    }
}

proof fn lemma_count_all(s: Seq<JobStatus>, st: JobStatus)
    requires
        forall|i: int| 0 <= i < s.len() ==> s[i] == st,
    ensures
        count_status(s, st) == s.len(),
    decreases s.len(),
{
    if s.len() > 0 {
        lemma_count_all(s.drop_last(), st);
    }
}

/// The batch as the scheduler sees it: the concurrency limit and the status
/// of each job, in the order of the job list.
pub struct SchedulerView {
    pub limit: nat,
    pub statuses: Seq<JobStatus>,
}

impl SchedulerView {
    pub open spec fn in_flight(self) -> nat {
        count_status(self.statuses, JobStatus::Running)
    }

    pub open spec fn failures(self) -> nat {
        count_status(self.statuses, JobStatus::Failed)
    }

    pub open spec fn settled(self) -> nat {
        count_status(self.statuses, JobStatus::Succeeded) + count_status(
            self.statuses,
            JobStatus::Failed,
        )
    }

    pub open spec fn has_pending(self) -> bool {
        exists|i: int| 0 <= i < self.statuses.len() && self.statuses[i] == JobStatus::Pending
    }

    pub open spec fn all_settled(self) -> bool {
        forall|i: int| 0 <= i < self.statuses.len() ==> is_settled(self.statuses[i])
    }

    /// `next` is `self` after some jobs were launched or reached their
    /// terminal state: no job goes back, and a terminal state is final.
    pub open spec fn leads_to(self, next: SchedulerView) -> bool {
        &&& next.limit == self.limit
        &&& next.statuses.len() == self.statuses.len()
        &&& forall|i: int|
            0 <= i < self.statuses.len() ==> {
                let (a, b) = (self.statuses[i], #[trigger] next.statuses[i]);
                &&& a == JobStatus::Running ==> b != JobStatus::Pending
                &&& is_settled(a) ==> b == a
            }
    }
}

/// The admission gate of a batch. Jobs are admitted in the order of the
/// list, at most `limit` of them run at once, and each is launched once.
#[derive(Debug)]
pub struct BatchScheduler {
    limit: usize,
    statuses: Vec<JobStatus>,
    started: usize,
    in_flight: usize,
    succeeded: usize,
    failures: usize,
}

impl View for BatchScheduler {
    type V = SchedulerView;

    closed spec fn view(&self) -> SchedulerView {
        SchedulerView { limit: self.limit as nat, statuses: self.statuses@ }
    }
}

impl BatchScheduler {
    /// The scheduler's counters agree with the statuses, the launched jobs
    /// form a prefix of the list, and the running ones fit in the limit.
    pub closed spec fn wf(&self) -> bool {
        let s = self.statuses@;
        &&& self.limit >= 1
        &&& self.started <= s.len()
        &&& forall|i: int| 0 <= i < self.started ==> s[i] != JobStatus::Pending
        &&& forall|i: int| self.started <= i < s.len() ==> s[i] == JobStatus::Pending
        &&& self.in_flight == count_status(s, JobStatus::Running)
        &&& self.succeeded == count_status(s, JobStatus::Succeeded)
        &&& self.failures == count_status(s, JobStatus::Failed)
        &&& self.in_flight <= self.limit
    }

    /// A batch of `total` jobs, none launched, with at most `limit` running
    /// at once.
    pub fn new(total: usize, limit: usize) -> (r: Self)
        requires
            limit >= 1,
        ensures
            r.wf(),
            r@.limit == limit,
            r@.statuses.len() == total,
            forall|i: int| 0 <= i < total ==> r@.statuses[i] == JobStatus::Pending,
    {
        let mut statuses: Vec<JobStatus> = Vec::new();
        let mut i: usize = 0;
        while i < total
            invariant
                i <= total,
                statuses@.len() == i,
                forall|j: int| 0 <= j < i ==> statuses@[j] == JobStatus::Pending,
            decreases total - i,
        {
            statuses.push(JobStatus::Pending);
            i = i + 1;
        }
        proof {
            lemma_count_all(statuses@, JobStatus::Pending);
            lemma_count_zero(statuses@, JobStatus::Running);
            lemma_count_zero(statuses@, JobStatus::Succeeded);
            lemma_count_zero(statuses@, JobStatus::Failed);
        }
        BatchScheduler { limit, statuses, started: 0, in_flight: 0, succeeded: 0, failures: 0 }
    }

    /// Decides the next step of the scheduling loop. A job is admitted when a
    /// slot is free and a job is left; it is then running.
    pub fn next_action(&mut self) -> (a: SchedulerAction)
        requires
            old(self).wf(),
        ensures
            final(self).wf(),
            old(self)@.leads_to(final(self)@),
            a is Start <==> old(self)@.has_pending() && old(self)@.in_flight() < old(self)@.limit,
            a is Wait <==> !(old(self)@.has_pending() && old(self)@.in_flight() < old(self)@.limit)
                && old(self)@.in_flight() > 0,
            a is Done <==> !old(self)@.has_pending() && old(self)@.in_flight() == 0,
            a is Done ==> old(self)@.all_settled(),
            a matches SchedulerAction::Start(i) ==> {
                &&& i < old(self)@.statuses.len()
                &&& old(self)@.statuses[i as int] == JobStatus::Pending
                &&& forall|j: int| 0 <= j < i ==> old(self)@.statuses[j] != JobStatus::Pending
                &&& final(self)@.statuses == old(self)@.statuses.update(i as int, JobStatus::Running)
                &&& final(self)@.in_flight() == old(self)@.in_flight() + 1
                &&& final(self)@.settled() == old(self)@.settled()
                &&& final(self)@.failures() == old(self)@.failures()
            },
            !(a is Start) ==> final(self)@ == old(self)@,
    {
        proof {
            lemma_count_zero(self.statuses@, JobStatus::Running);
            if self.started < self.statuses@.len() {
                assert(self.statuses@[self.started as int] == JobStatus::Pending);
            }
        }
        if self.started < self.statuses.len() && self.in_flight < self.limit {
            let i = self.started;
            proof {
                let s = self.statuses@;
                lemma_count_update(s, i as int, JobStatus::Running, JobStatus::Running);
                lemma_count_update(s, i as int, JobStatus::Running, JobStatus::Succeeded);
                lemma_count_update(s, i as int, JobStatus::Running, JobStatus::Failed);
            }
            self.statuses.set(i, JobStatus::Running);
            self.started = i + 1;
            self.in_flight = self.in_flight + 1;
            SchedulerAction::Start(i)
        } else if self.in_flight > 0 {
            SchedulerAction::Wait
        } else {
            SchedulerAction::Done
        }
    }

    /// Records that the job at `job` reached its end, successfully or not,
    /// and frees its slot.
    pub fn on_finished(&mut self, job: usize, ok: bool) -> (r: Result<(), SchedulerError>)
        requires
            old(self).wf(),
        ensures
            final(self).wf(),
            old(self)@.leads_to(final(self)@),
            r is Ok <==> job < old(self)@.statuses.len() && old(self)@.statuses[job as int]
                == JobStatus::Running,
            r is Ok ==> final(self)@.statuses == old(self)@.statuses.update(
                job as int,
                if ok {
                    JobStatus::Succeeded
                } else {
                    JobStatus::Failed
                },
            ),
            r is Ok ==> final(self)@.in_flight() + 1 == old(self)@.in_flight(),
            r is Ok ==> final(self)@.settled() == old(self)@.settled() + 1,
            r is Ok ==> final(self)@.failures() == old(self)@.failures() + if ok {
                0nat
            } else {
                1nat
            },
            r is Err ==> final(self)@ == old(self)@,
    {
        if job >= self.statuses.len() || self.statuses[job] != JobStatus::Running {
            return Err(SchedulerError::NotRunning);
        }
        let v = if ok {
            JobStatus::Succeeded
        } else {
            JobStatus::Failed
        };
        proof {
            let s = self.statuses@;
            self.lemma_counts_bounded();
            lemma_count_zero(s, JobStatus::Running);
            lemma_count_update(s, job as int, v, JobStatus::Running);
            lemma_count_update(s, job as int, v, JobStatus::Succeeded);
            lemma_count_update(s, job as int, v, JobStatus::Failed);
        }
        self.statuses.set(job, v);
        self.in_flight = self.in_flight - 1;
        if ok {
            self.succeeded = self.succeeded + 1;
        } else {
            self.failures = self.failures + 1;
        }
        Ok(())
    }

    pub fn total(&self) -> (r: usize)
        ensures
            r == self@.statuses.len(),
    {
        self.statuses.len()
    }

    pub fn limit(&self) -> (r: usize)
        ensures
            r == self@.limit,
    {
        self.limit
    }

    /// How many jobs are running now; never more than the limit.
    pub fn in_flight(&self) -> (r: usize)
        requires
            self.wf(),
        ensures
            r == self@.in_flight(),
            r <= self@.limit,
    {
        self.in_flight
    }

    pub fn failures(&self) -> (r: usize)
        requires
            self.wf(),
        ensures
            r == self@.failures(),
    {
        self.failures
    }

    pub fn status(&self, job: usize) -> (r: JobStatus)
        requires
            job < self@.statuses.len(),
        ensures
            r == self@.statuses[job as int],
    {
        self.statuses[job]
    }

    /// How many jobs have reached a terminal state.
    pub fn settled(&self) -> (r: usize)
        requires
            self.wf(),
        ensures
            r == self@.settled(),
    {
        proof {
            self.lemma_counts_bounded();
        }
        self.succeeded + self.failures
    }

    proof fn lemma_counts_bounded(&self)
        requires
            self.wf(),
        ensures
            self@.settled() + self@.in_flight() <= self@.statuses.len(),
            self@.settled() + self@.in_flight() == self.started,
    {
        lemma_partition(self.statuses@, self.started as int);
    }

    /// The settled and the running jobs are among the jobs of the batch, and
    /// all of them are settled exactly when the settled count is the total.
    pub proof fn lemma_counts(&self)
        requires
            self.wf(),
        ensures
            self@.settled() + self@.in_flight() <= self@.statuses.len(),
            self@.all_settled() <==> self@.settled() == self@.statuses.len(),
    {
        let s = self.statuses@;
        lemma_partition(s, self.started as int);
        lemma_count_zero(s, JobStatus::Running);
        if self.started < s.len() {
            assert(s[self.started as int] == JobStatus::Pending);
        }
        if self@.all_settled() {
            assert forall|i: int| 0 <= i < s.len() implies s[i] != JobStatus::Running by {
                assert(is_settled(self@.statuses[i]));
            }
        }
        if self@.settled() == s.len() {
            assert forall|i: int| 0 <= i < s.len() implies is_settled(s[i]) by {
                assert(s[i] != JobStatus::Pending);
                assert(s[i] != JobStatus::Running);
            }
        }
    }

    /// Whether every job has reached a terminal state.
    pub fn is_done(&self) -> (r: bool)
        requires
            self.wf(),
        ensures
            r == self@.all_settled(),
    {
        proof {
            lemma_count_zero(self.statuses@, JobStatus::Running);
            if self.started < self.statuses@.len() {
                assert(self.statuses@[self.started as int] == JobStatus::Pending);
            }
            if self@.all_settled() {
                assert forall|i: int| 0 <= i < self.statuses@.len() implies self.statuses@[i]
                    != JobStatus::Running by {
                    assert(is_settled(self@.statuses[i]));
                }
            }
            if self.started == self.statuses@.len() && self.in_flight == 0 {
                assert forall|i: int| 0 <= i < self.statuses@.len() implies is_settled(
                    self.statuses@[i],
                ) by {
                    assert(self.statuses@[i] != JobStatus::Pending);
                    assert(self.statuses@[i] != JobStatus::Running);
                }
            }
        }
        self.started == self.statuses.len() && self.in_flight == 0
    }

    /// The aggregate of a settled batch: the failures are counted, and only
    /// a batch in which every job failed is an error.
    pub fn outcome(&self) -> (r: Result<BatchOutcome, BatchError>)
        requires
            self.wf(),
            self@.all_settled(),
        ensures
            r is Err <==> self@.statuses.len() > 0 && self@.failures() == self@.statuses.len(),
            r matches Ok(o) ==> o.attempted == self@.statuses.len() && o.failures == self@.failures(),
            r matches Err(BatchError::AllFailed(n)) ==> n == self@.statuses.len(),
    {
        proof {
            self.lemma_counts_bounded();
            lemma_count_zero(self.statuses@, JobStatus::Running);
            lemma_count_zero(self.statuses@, JobStatus::Pending);
        }
        let total = self.statuses.len();
        if total > 0 && self.failures == total {
            Err(BatchError::AllFailed(total))
        } else {
            Ok(BatchOutcome { attempted: total, failures: self.failures })
        }
    }
}

/// The jobs before `started` are launched and those from it on are pending:
/// the launched ones are running or settled.
proof fn lemma_partition(s: Seq<JobStatus>, started: int)
    requires
        0 <= started <= s.len(),
        forall|i: int| 0 <= i < started ==> s[i] != JobStatus::Pending,
        forall|i: int| started <= i < s.len() ==> s[i] == JobStatus::Pending,
    ensures
        count_status(s, JobStatus::Running) + count_status(s, JobStatus::Succeeded) + count_status(
            s,
            JobStatus::Failed,
        ) == started,
        count_status(s, JobStatus::Pending) == s.len() - started,
    decreases s.len(),
{
    if s.len() > 0 {
        if started == s.len() {
            lemma_partition(s.drop_last(), started - 1);
        } else {
            lemma_partition(s.drop_last(), started);
        }
    }
}

/// However many jobs a batch holds and whatever order they finish in, no
/// more than the concurrency limit of them are in flight at any time.
pub proof fn lemma_in_flight_within_limit(s: &BatchScheduler)
    requires
        s.wf(),
    ensures
        s@.in_flight() <= s@.limit,
{
}

} // verus!
