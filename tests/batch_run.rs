use rustacean_launcher::batch::{BatchAction, DownloadBatch};
use rustacean_launcher::job::FileData;
use rustacean_launcher::progress::{DownloadState, DownloaderTracking};
use rustacean_launcher::scheduler::{BatchError, BatchScheduler, JobStatus, SchedulerAction, SchedulerError};

fn job(n: u32) -> FileData {
    FileData::new(format!("root/file{}", n), format!("https://example.org/file{}", n), None)
}

/// Drives a batch the way the scheduling loop does: starts what it may,
/// settles the oldest running job when told to wait, and records the peak
/// number of jobs in flight.
fn drive(jobs: Vec<FileData>, limit: usize, fails: &[usize]) -> (DownloadBatch, DownloaderTracking, usize) {
    let mut tracker = DownloaderTracking::default();
    let mut batch = DownloadBatch::new(jobs, limit, &mut tracker);
    let mut running: Vec<usize> = Vec::new();
    let mut peak = 0;
    loop {
        match batch.next_action(&mut tracker) {
            BatchAction::Start(i, _) => {
                running.push(i);
                peak = peak.max(batch.scheduler().in_flight());
                assert_eq!(tracker.units().len(), running.len());
            }
            BatchAction::Wait => {
                let i = running.remove(0);
                let before = tracker.actual_progress();
                batch.settle(i, !fails.contains(&i), &mut tracker).unwrap();
                assert_eq!(tracker.actual_progress(), before + 1);
            }
            BatchAction::Done => break,
        }
    }
    (batch, tracker, peak)
}

#[test]
fn three_jobs_limit_two_all_succeed() {
    let (batch, tracker, peak) = drive(vec![job(1), job(2), job(3)], 2, &[]);
    assert_eq!(tracker.progress(), (3, 3));
    assert_eq!(tracker.state(), DownloadState::Finished);
    assert_eq!(tracker.units().len(), 0);
    assert!(tracker.finished());
    assert_eq!(peak, 2);
    let outcome = batch.outcome().unwrap();
    assert_eq!(outcome.attempted, 3);
    assert_eq!(outcome.failures, 0);
}

#[test]
fn one_unreachable_source_still_finishes() {
    let (batch, tracker, _) = drive(vec![job(1), job(2), job(3)], 2, &[1]);
    assert_eq!(tracker.state(), DownloadState::Finished);
    assert_eq!(tracker.actual_progress(), tracker.total_progress());
    assert_eq!(tracker.units().len(), 0);
    let outcome = batch.outcome().unwrap();
    assert_eq!(outcome.failures, 1);
    assert_eq!(outcome.attempted, 3);
}

#[test]
fn every_job_failing_is_a_batch_error() {
    let (batch, tracker, _) = drive(vec![job(1), job(2)], 2, &[0, 1]);
    assert_eq!(tracker.state(), DownloadState::Finished);
    assert_eq!(batch.outcome(), Err(BatchError::AllFailed(2)));
}

#[test]
fn peak_in_flight_never_exceeds_limit() {
    for limit in 1..5 {
        let jobs: Vec<FileData> = (0..17).map(job).collect();
        let (_, tracker, peak) = drive(jobs, limit, &[]);
        assert!(peak <= limit);
        assert_eq!(peak, limit);
        assert_eq!(tracker.progress(), (17, 17));
    }
}

#[test]
fn empty_batch_is_finished_at_once() {
    let mut tracker = DownloaderTracking::default();
    let mut batch = DownloadBatch::new(Vec::new(), 4, &mut tracker);
    assert_eq!(tracker.state(), DownloadState::Finished);
    assert!(matches!(batch.next_action(&mut tracker), BatchAction::Done));
    assert_eq!(batch.outcome().unwrap().attempted, 0);
}

#[test]
fn progress_never_decreases_and_finishes_at_total() {
    let mut tracker = DownloaderTracking::default();
    let mut batch = DownloadBatch::new(vec![job(1), job(2), job(3), job(4)], 3, &mut tracker);
    let mut last = 0;
    let mut started = Vec::new();
    loop {
        match batch.next_action(&mut tracker) {
            BatchAction::Start(i, j) => {
                assert_eq!(j.url, format!("https://example.org/file{}", i + 1));
                started.push(i);
            }
            BatchAction::Wait => {
                let i = started.pop().unwrap();
                batch.settle(i, true, &mut tracker).unwrap();
            }
            BatchAction::Done => break,
        }
        assert!(tracker.actual_progress() >= last);
        last = tracker.actual_progress();
        assert_eq!(tracker.state() == DownloadState::Finished, tracker.actual_progress() == tracker.total_progress());
    }
    assert_eq!(last, 4);
}

#[test]
fn settling_a_job_that_is_not_running_is_refused() {
    let mut tracker = DownloaderTracking::default();
    let mut batch = DownloadBatch::new(vec![job(1), job(2)], 1, &mut tracker);
    assert_eq!(batch.settle(0, true, &mut tracker), Err(SchedulerError::NotRunning));
    assert!(matches!(batch.next_action(&mut tracker), BatchAction::Start(0, _)));
    assert_eq!(batch.settle(1, true, &mut tracker), Err(SchedulerError::NotRunning));
    assert_eq!(batch.settle(7, true, &mut tracker), Err(SchedulerError::NotRunning));
    assert_eq!(tracker.actual_progress(), 0);
    assert_eq!(batch.settle(0, true, &mut tracker), Ok(()));
    assert_eq!(batch.settle(0, true, &mut tracker), Err(SchedulerError::NotRunning));
}

#[test]
fn initial_files_keep_their_phase() {
    let mut tracker = DownloaderTracking::default();
    let mut batch = DownloadBatch::new_initials(vec![job(1), job(2)], 4, &mut tracker);
    assert_eq!(tracker.state(), DownloadState::DownloadingInitials);
    let mut started = Vec::new();
    loop {
        match batch.next_action(&mut tracker) {
            BatchAction::Start(i, _) => started.push(i),
            BatchAction::Wait => {
                let i = started.pop().unwrap();
                batch.settle(i, i == 0, &mut tracker).unwrap();
            }
            BatchAction::Done => break,
        }
    }
    assert_eq!(tracker.state(), DownloadState::DownloadingInitials);
    assert_eq!(tracker.progress(), (2, 2));
    assert!(!batch.all_succeeded());
}

#[test]
fn scheduler_admits_in_order_up_to_limit() {
    let mut s = BatchScheduler::new(3, 2);
    assert_eq!(s.next_action(), SchedulerAction::Start(0));
    assert_eq!(s.next_action(), SchedulerAction::Start(1));
    assert_eq!(s.next_action(), SchedulerAction::Wait);
    assert_eq!(s.in_flight(), 2);
    assert_eq!(s.on_finished(1, false), Ok(()));
    assert_eq!(s.status(1), JobStatus::Failed);
    assert_eq!(s.next_action(), SchedulerAction::Start(2));
    assert_eq!(s.on_finished(0, true), Ok(()));
    assert_eq!(s.on_finished(2, true), Ok(()));
    assert!(s.is_done());
    assert_eq!(s.next_action(), SchedulerAction::Done);
    assert_eq!(s.settled(), 3);
    assert_eq!(s.failures(), 1);
    assert_eq!(s.total(), 3);
    assert_eq!(s.limit(), 2);
}
