//! A batch of downloads run through the admission gate, with its progress
//! kept in the shared tracker: each launched job registers a unit labelled by
//! its URL, and each job that ends, well or not, counts as attempted.

use crate::job::FileData;
use crate::progress::{
    first_with_label, run_consistent, unit_labels, DownloadState, DownloaderTracking, FileProgress,
    FileProgressView, TrackerView,
};
use crate::scheduler::{
    BatchError, BatchOutcome, BatchScheduler, JobStatus, SchedulerAction,
    SchedulerError, SchedulerView,
};
use vstd::multiset::Multiset;
use vstd::prelude::*;

verus! {

broadcast use vstd::seq_lib::group_to_multiset_ensures;

/// The labels of the running jobs, with multiplicity.
pub open spec fn running_labels(statuses: Seq<JobStatus>, labels: Seq<Seq<char>>) -> Multiset<
    Seq<char>,
>
    decreases statuses.len(),
{
    if statuses.len() == 0 {
        Multiset::empty()
    } else {
        let rest = running_labels(statuses.drop_last(), labels);
        if statuses.last() == JobStatus::Running {
            rest.insert(labels[statuses.len() - 1])
        } else {
            rest
        }
    }
}

proof fn lemma_running_labels_update(
    s: Seq<JobStatus>,
    labels: Seq<Seq<char>>,
    i: int,
    v: JobStatus,
)
    requires
        0 <= i < s.len(),
    ensures
        s[i] != JobStatus::Running && v == JobStatus::Running ==> running_labels(s.update(i, v), labels)
            == running_labels(s, labels).insert(labels[i]),
        s[i] == JobStatus::Running && v != JobStatus::Running ==> running_labels(s.update(i, v), labels)
            == running_labels(s, labels).remove(labels[i]),
    decreases s.len(),
{
    let n = s.len() - 1;
    if i == n {
        assert(s.update(i, v).drop_last() =~= s.drop_last());
        let rest = running_labels(s.drop_last(), labels);
        if s[i] == JobStatus::Running && v != JobStatus::Running {
            assert(rest.insert(labels[i]).remove(labels[i]) =~= rest);
        }
    } else {
        lemma_running_labels_update(s.drop_last(), labels, i, v);
        assert(s.update(i, v).drop_last() =~= s.drop_last().update(i, v));
        let rest = running_labels(s.drop_last(), labels);
        if s[i] == JobStatus::Running && v != JobStatus::Running && s.last() == JobStatus::Running {
            assert(rest.count(labels[i]) > 0) by {
                lemma_running_contains(s.drop_last(), labels, i);
            }
            assert(rest.remove(labels[i]).insert(labels[n]) =~= rest.insert(labels[n]).remove(
                labels[i],
            ));
        }
        if s[i] != JobStatus::Running && v == JobStatus::Running && s.last() == JobStatus::Running {
            assert(rest.insert(labels[i]).insert(labels[n]) =~= rest.insert(labels[n]).insert(
                labels[i],
            ));
        }
    }
}

proof fn lemma_running_contains(s: Seq<JobStatus>, labels: Seq<Seq<char>>, i: int)
    requires
        0 <= i < s.len(),
        s[i] == JobStatus::Running,
    ensures
        running_labels(s, labels).count(labels[i]) > 0,
    decreases s.len(),
{
    if i < s.len() - 1 {
        lemma_running_contains(s.drop_last(), labels, i);
    }
}

proof fn lemma_running_none(s: Seq<JobStatus>, labels: Seq<Seq<char>>)
    requires
        forall|i: int| 0 <= i < s.len() ==> s[i] != JobStatus::Running,
    ensures
        running_labels(s, labels) =~= Multiset::empty(),
    decreases s.len(),
{
    if s.len() > 0 {
        lemma_running_none(s.drop_last(), labels);
    }
}

proof fn lemma_first_with_label(units: Seq<FileProgressView>, label: Seq<char>, k: int)
    requires
        0 <= k < units.len(),
        units[k].label == label,
    ensures
        exists|i: int| first_with_label(units, label, i),
    decreases units.len(),
{
    if exists|j: int| 0 <= j < units.len() - 1 && units[j].label == label {
        let j = choose|j: int| 0 <= j < units.len() - 1 && units[j].label == label;
        lemma_first_with_label(units.drop_last(), label, j);
        let i = choose|i: int| first_with_label(units.drop_last(), label, i);
        assert(units.drop_last()[i] == units[i]);
        assert forall|j: int| 0 <= j < i implies units[j].label != label by {
            assert(units.drop_last()[j] == units[j]);
        }
        assert(first_with_label(units, label, i));
    } else {
        assert(k == units.len() - 1);
        assert forall|j: int| 0 <= j < k implies units[j].label != label by {
            if units[j].label == label {
                assert(0 <= j < units.len() - 1 && units[j].label == label);
            }
        }
        assert(first_with_label(units, label, k));
    }
}

/// What the scheduling loop of a batch is to do next.
#[derive(Debug)]
pub enum BatchAction {
    /// Launch this job, at this index of the batch.
    Start(usize, FileData),
    /// Wait for a running job to end.
    Wait,
    /// Every job has been attempted.
    Done,
}

/// A batch of jobs with its admission gate.
#[derive(Debug)]
pub struct DownloadBatch {
    jobs: Vec<FileData>,
    scheduler: BatchScheduler,
    phase: DownloadState,
}

impl DownloadBatch {
    pub closed spec fn jobs(&self) -> Seq<FileData> {
        self.jobs@
    }

    pub closed spec fn sched(&self) -> SchedulerView {
        self.scheduler@
    }

    /// The lifecycle state that the tracker shows while this batch runs.
    pub closed spec fn phase(&self) -> DownloadState {
        self.phase
    }

    /// The lifecycle state that `t` shows for this batch: the main batch is
    /// finished once every job is attempted; the prerequisite files keep
    /// their own phase until the session moves on.
    pub open spec fn state_for(&self, t: TrackerView) -> DownloadState {
        if self.phase() == DownloadState::Downloading && t.progress.0 == t.progress.1 {
            DownloadState::Finished
        } else {
            self.phase()
        }
    }

    pub open spec fn labels(&self) -> Seq<Seq<char>> {
        self.jobs().map_values(|j: FileData| j.url@)
    }

    /// The scheduler's counters are consistent and it holds one status per job.
    pub closed spec fn wf(&self) -> bool {
        &&& self.scheduler.wf()
        &&& self.jobs@.len() == self.scheduler@.statuses.len()
        &&& (self.phase == DownloadState::Downloading || self.phase
            == DownloadState::DownloadingInitials)
    }

    /// The tracker `t` shows this batch: the attempted and total counts, the
    /// lifecycle, and one unit for each running job.
    pub closed spec fn in_sync(&self, t: TrackerView) -> bool {
        let s = self.scheduler@;
        &&& self.wf()
        &&& t.progress.0 == s.settled()
        &&& t.progress.1 == s.statuses.len()
        &&& t.state == self.state_for(t)
        &&& unit_labels(t.units).to_multiset() == running_labels(s.statuses, self.labels())
    }

    proof fn lemma_sync_facts(&self, t: TrackerView)
        requires
            self.in_sync(t),
        ensures
            t.progress.0 <= t.progress.1,
            self.phase() == DownloadState::Downloading ==> run_consistent(t),
            self.sched().settled() + self.sched().in_flight() <= self.sched().statuses.len(),
            self.sched().all_settled() <==> t.progress.0 == t.progress.1,
            self.sched().all_settled() ==> t.units.len() == 0,
            self.jobs().len() == self.sched().statuses.len(),
            self.wf(),
    {
        let s = self.scheduler@.statuses;
        self.scheduler.lemma_counts();
        if self.sched().all_settled() {
            assert forall|i: int| 0 <= i < s.len() implies s[i] != JobStatus::Running by {
                assert(crate::scheduler::is_settled(s[i]));
            }
            lemma_running_none(s, self.labels());
            assert(unit_labels(t.units).to_multiset().len() == 0);
        }
    }

    /// Starts a batch of `jobs`, at most `limit` of them at once: the tracker
    /// is reset and then counts the batch.
    pub fn new(jobs: Vec<FileData>, limit: usize, tracker: &mut DownloaderTracking) -> (r: Self)
        requires
            limit >= 1,
        ensures
            r.in_sync(final(tracker)@),
            r.wf(),
            r.phase() == DownloadState::Downloading,
            r.jobs() == jobs@,
            r.sched().limit == limit,
            final(tracker)@.progress.0 == 0,
            final(tracker)@.progress.1 == jobs@.len(),
            final(tracker)@.units.len() == 0,
            final(tracker)@.state == if jobs@.len() == 0 {
                DownloadState::Finished
            } else {
                DownloadState::Downloading
            },
    {
        let scheduler = BatchScheduler::new(jobs.len(), limit);
        tracker.clean();
        tracker.begin_batch(jobs.len());
        let r = DownloadBatch { jobs, scheduler, phase: DownloadState::Downloading };
        proof {
            let s = r.scheduler@.statuses;
            crate::scheduler::lemma_count_zero(s, JobStatus::Running);
            crate::scheduler::lemma_count_zero(s, JobStatus::Succeeded);
            crate::scheduler::lemma_count_zero(s, JobStatus::Failed);
            lemma_running_none(s, r.labels());
            assert(unit_labels(tracker@.units) =~= Seq::<Seq<char>>::empty());
            assert(unit_labels(tracker@.units).to_multiset() =~= Multiset::empty());
        }
        r
    }

    /// Starts the batch of prerequisite files: the tracker is reset, counts
    /// them, and shows the phase of prerequisite files.
    pub fn new_initials(jobs: Vec<FileData>, limit: usize, tracker: &mut DownloaderTracking) -> (r:
        Self)
        requires
            limit >= 1,
        ensures
            r.in_sync(final(tracker)@),
            r.wf(),
            r.phase() == DownloadState::DownloadingInitials,
            r.jobs() == jobs@,
            r.sched().limit == limit,
            final(tracker)@.progress.0 == 0,
            final(tracker)@.progress.1 == jobs@.len(),
            final(tracker)@.units.len() == 0,
            final(tracker)@.state == DownloadState::DownloadingInitials,
    {
        let scheduler = BatchScheduler::new(jobs.len(), limit);
        tracker.clean();
        tracker.set_progress((0, jobs.len()));
        tracker.set_state(DownloadState::DownloadingInitials);
        let r = DownloadBatch { jobs, scheduler, phase: DownloadState::DownloadingInitials };
        proof {
            let s = r.scheduler@.statuses;
            crate::scheduler::lemma_count_zero(s, JobStatus::Running);
            crate::scheduler::lemma_count_zero(s, JobStatus::Succeeded);
            crate::scheduler::lemma_count_zero(s, JobStatus::Failed);
            lemma_running_none(s, r.labels());
            assert(unit_labels(tracker@.units) =~= Seq::<Seq<char>>::empty());
            assert(unit_labels(tracker@.units).to_multiset() =~= Multiset::empty());
        }
        r
    }

    /// Decides the next step of the scheduling loop; a launched job is
    /// registered in the tracker under its URL.
    pub fn next_action(&mut self, tracker: &mut DownloaderTracking) -> (a: BatchAction)
        requires
            old(self).in_sync(old(tracker)@),
        ensures
            final(self).in_sync(final(tracker)@),
            final(self).jobs() == old(self).jobs(),
            final(self).phase() == old(self).phase(),
            old(self).sched().leads_to(final(self).sched()),
            final(tracker)@.progress == old(tracker)@.progress,
            final(tracker)@.progress.0 >= old(tracker)@.progress.0,
            a matches BatchAction::Start(i, job) ==> {
                &&& i < old(self).jobs().len()
                &&& job == old(self).jobs()[i as int]
                &&& old(self).sched().statuses[i as int] == JobStatus::Pending
                &&& final(self).sched().statuses == old(self).sched().statuses.update(
                    i as int,
                    JobStatus::Running,
                )
                &&& final(tracker)@.units == old(tracker)@.units.push(
                    FileProgressView { label: job.url@, done: 0, total: 0 },
                )
                &&& final(tracker)@.state == old(tracker)@.state
            },
            a is Start <==> old(self).sched().has_pending() && old(self).sched().in_flight() < old(
                self,
            ).sched().limit,
            a is Wait <==> !(old(self).sched().has_pending() && old(self).sched().in_flight() < old(
                self,
            ).sched().limit) && old(self).sched().in_flight() > 0,
            !(a is Start) ==> final(tracker)@ == old(tracker)@ && final(self).sched() == old(
                self,
            ).sched(),
            a is Done ==> {
                &&& old(self).sched().all_settled()
                &&& final(tracker)@.state == if old(self).phase() == DownloadState::Downloading {
                    DownloadState::Finished
                } else {
                    DownloadState::DownloadingInitials
                }
                &&& final(tracker)@.progress.0 == final(tracker)@.progress.1
                &&& final(tracker)@.progress.1 == old(self).jobs().len()
                &&& final(tracker)@.units.len() == 0
            },
    {
        proof {
            self.lemma_sync_facts(tracker@);
        }
        let ghost before = self.scheduler@.statuses;
        match self.scheduler.next_action() {
            SchedulerAction::Start(i) => {
                let job = self.jobs[i].clone();
                tracker.add_unit(FileProgress::new(job.url.clone()));
                proof {
                    lemma_running_labels_update(before, self.labels(), i as int, JobStatus::Running);
                    assert(unit_labels(tracker@.units) =~= unit_labels(old(tracker)@.units).push(
                        job.url@,
                    ));
                }
                BatchAction::Start(i, job)
            },
            SchedulerAction::Wait => BatchAction::Wait,
            SchedulerAction::Done => BatchAction::Done,
        }
    }

    /// Records the end of the job at `job`: it counts as attempted whether
    /// it succeeded or not, and its unit leaves the tracker.
    pub fn settle(&mut self, job: usize, ok: bool, tracker: &mut DownloaderTracking) -> (r: Result<
        (),
        SchedulerError,
    >)
        requires
            old(self).in_sync(old(tracker)@),
        ensures
            final(self).in_sync(final(tracker)@),
            final(self).jobs() == old(self).jobs(),
            final(self).phase() == old(self).phase(),
            old(self).sched().leads_to(final(self).sched()),
            final(tracker)@.progress.0 >= old(tracker)@.progress.0,
            r is Ok <==> job < old(self).jobs().len() && old(self).sched().statuses[job as int]
                == JobStatus::Running,
            r is Ok ==> final(tracker)@.progress == ((old(tracker)@.progress.0 + 1) as usize, old(
                tracker,
            )@.progress.1),
            r is Ok ==> final(self).sched().statuses == old(self).sched().statuses.update(
                job as int,
                if ok {
                    JobStatus::Succeeded
                } else {
                    JobStatus::Failed
                },
            ),
            r is Ok ==> final(self).sched().failures() == old(self).sched().failures() + if ok {
                0nat
            } else {
                1nat
            },
            r is Err ==> final(tracker)@ == old(tracker)@ && final(self).sched() == old(
                self,
            ).sched(),
    {
        proof {
            self.lemma_sync_facts(tracker@);
        }
        let ghost before = self.scheduler@.statuses;
        let ghost t0 = tracker@;
        let res = self.scheduler.on_finished(job, ok);
        match res {
            Ok(()) => {
                let url = self.jobs[job].url.clone();
                proof {
                    let v = if ok {
                        JobStatus::Succeeded
                    } else {
                        JobStatus::Failed
                    };
                    lemma_running_labels_update(before, self.labels(), job as int, v);
                    lemma_running_contains(before, self.labels(), job as int);
                    let ls = unit_labels(t0.units);
                    assert(ls.to_multiset().count(url@) > 0);
                    assert(ls.contains(url@));
                    let k = choose|k: int| 0 <= k < ls.len() && ls[k] == url@;
                    lemma_first_with_label(t0.units, url@, k);
                }
                tracker.complete_unit(url);
                proof {
                    let i = choose|i: int| first_with_label(t0.units, url@, i);
                    assert(unit_labels(t0.units.remove(i)) =~= unit_labels(t0.units).remove(i));
                }
                Ok(())
            },
            Err(e) => Err(e),
        }
    }

    /// The aggregate of the batch once every job is attempted.
    pub fn outcome(&self) -> (r: Result<BatchOutcome, BatchError>)
        requires
            self.wf(),
            self.sched().all_settled(),
        ensures
            r is Err <==> self.jobs().len() > 0 && self.sched().failures() == self.sched().statuses.len(),
            r matches Ok(o) ==> o.attempted == self.sched().statuses.len() && o.failures
                == self.sched().failures(),
    {
        self.scheduler.outcome()
    }

    /// Whether every job of a settled batch succeeded.
    pub fn all_succeeded(&self) -> (r: bool)
        requires
            self.wf(),
        ensures
            r == (self.sched().failures() == 0),
    {
        self.scheduler.failures() == 0
    }

    pub fn scheduler(&self) -> (r: &BatchScheduler)
        ensures
            r@ == self.sched(),
    {
        &self.scheduler
    }

    pub fn len(&self) -> (r: usize)
        ensures
            r == self.jobs().len(),
    {
        self.jobs.len()
    }
}

/// Progress of a batch only grows, and the run is finished exactly when
/// every job of the batch has been attempted.
pub proof fn lemma_finished_iff_complete(b: &DownloadBatch, t: TrackerView)
    requires
        b.in_sync(t),
        b.phase() == DownloadState::Downloading,
    ensures
        t.progress.0 <= t.progress.1,
        t.state == DownloadState::Finished <==> t.progress.0 == t.progress.1,
        t.state == DownloadState::Finished || t.state == DownloadState::Downloading,
{
    b.lemma_sync_facts(t);
}

} // verus!
