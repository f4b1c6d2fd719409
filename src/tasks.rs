//! Lists of tasks to run in order or under a concurrency limit, and the
//! result of a task.

use crate::scheduler::{BatchScheduler, JobStatus};
use vstd::prelude::*;

verus! {

/// How a task ended.
#[allow(clippy::upper_case_acronyms)]
#[derive(Debug)]
pub enum TaskResult<R> {
    SUCCESS(R),
    FAILURE(String),
    ABORTED,
}

pub open spec fn aborted_message() -> Seq<char> {
    "Aborted"@
}

impl<R> TaskResult<R> {
    /// The result as a `Result`: an aborted task is an error that says so.
    pub fn into_result(self) -> (r: Result<R, String>)
        ensures
            self matches TaskResult::SUCCESS(v) ==> r == Ok::<R, String>(v),
            self matches TaskResult::FAILURE(e) ==> r == Err::<R, String>(e),
            self is ABORTED ==> (r matches Err(e) && e@ == aborted_message()),
    {
        match self {
            TaskResult::SUCCESS(v) => Ok(v),
            TaskResult::FAILURE(e) => Err(e),
            TaskResult::ABORTED => Err(String::from_str("Aborted")),
        }
    }

    /// A task's `Result` as a task result.
    pub fn from_result(res: Result<R, String>) -> (r: Self)
        ensures
            res matches Ok(v) ==> r == TaskResult::<R>::SUCCESS(v),
            res matches Err(e) ==> r == TaskResult::<R>::FAILURE(e),
    {
        match res {
            Ok(v) => TaskResult::SUCCESS(v),
            Err(e) => TaskResult::FAILURE(e),
        }
    }
}

/// Tasks run one after the other, in order.
#[derive(Debug)]
pub struct SequentialTask<S> {
    tasks: Vec<S>,
}

impl<S> SequentialTask<S> {
    pub closed spec fn tasks_spec(&self) -> Seq<S> {
        self.tasks@
    }

    pub fn new(tasks: Vec<S>) -> (r: Self)
        ensures
            r.tasks_spec() == tasks@,
    {
        SequentialTask { tasks }
    }

    pub fn default() -> (r: Self)
        ensures
            r.tasks_spec() == Seq::<S>::empty(),
    {
        SequentialTask { tasks: Vec::new() }
    }

    /// Appends a task at the end of the list.
    pub fn add_task(&mut self, task: S)
        ensures
            final(self).tasks_spec() == old(self).tasks_spec().push(task),
    {
        self.tasks.push(task);
    }

    /// Hands the tasks over for running, in order, and leaves the list empty.
    pub fn take_tasks(&mut self) -> (r: Vec<S>)
        ensures
            r@ == old(self).tasks_spec(),
            final(self).tasks_spec() == Seq::<S>::empty(),
    {
        let mut out: Vec<_> = Vec::new();
        std::mem::swap(&mut out, &mut self.tasks);
        out
    }
}

/// Tasks run concurrently, at most `max_concurrent_tasks` at once.
#[derive(Debug)]
pub struct ConcurrentTask<C> {
    tasks: Vec<C>,
    max_concurrent_tasks: usize,
}

impl<C> ConcurrentTask<C> {
    pub closed spec fn tasks_spec(&self) -> Seq<C> {
        self.tasks@
    }

    pub closed spec fn limit(&self) -> usize {
        self.max_concurrent_tasks
    }

    pub fn new(tasks: Vec<C>, max_concurrent_tasks: usize) -> (r: Self)
        ensures
            r.tasks_spec() == tasks@,
            r.limit() == max_concurrent_tasks,
    {
        ConcurrentTask { tasks, max_concurrent_tasks }
    }

    /// No task yet, up to 32 at once.
    pub fn default() -> (r: Self)
        ensures
            r.tasks_spec() == Seq::<C>::empty(),
            r.limit() == 32,
    {
        ConcurrentTask { tasks: Vec::new(), max_concurrent_tasks: 32 }
    }

    /// Appends a task at the end of the list.
    pub fn add_task(&mut self, task: C)
        ensures
            final(self).tasks_spec() == old(self).tasks_spec().push(task),
            final(self).limit() == old(self).limit(),
    {
        self.tasks.push(task);
    }

    /// The admission gate for the current list, or nothing when the limit
    /// is zero and no task could ever be admitted.
    pub fn scheduler(&self) -> (r: Option<BatchScheduler>)
        ensures
            self.limit() == 0 <==> r is None,
            r matches Some(s) ==> {
                &&& s.wf()
                &&& s@.limit == self.limit()
                &&& s@.statuses.len() == self.tasks_spec().len()
                &&& forall|i: int| 0 <= i < s@.statuses.len() ==> s@.statuses[i] == JobStatus::Pending
            },
    {
        if self.max_concurrent_tasks == 0 {
            None
        } else {
            Some(BatchScheduler::new(self.tasks.len(), self.max_concurrent_tasks))
        }
    }

    /// Hands the tasks over for running and leaves the list empty.
    pub fn take_tasks(&mut self) -> (r: Vec<C>)
        ensures
            r@ == old(self).tasks_spec(),
            final(self).tasks_spec() == Seq::<C>::empty(),
            final(self).limit() == old(self).limit(),
    {
        let mut out: Vec<_> = Vec::new();
        std::mem::swap(&mut out, &mut self.tasks);
        out
    }
}

} // verus!
