//! Shared progress of a download run: coarse counters for the whole batch and
//! a live list of the files in flight.

use vstd::prelude::*;

verus! {

/// Coarse lifecycle of a download operation.
#[derive(Debug, Clone, Copy, PartialEq, Eq, Structural)]
pub enum DownloadState {
    NotDownloading,
    DownloadingInitials,
    Downloading,
    Finished,
}

/// What an observer sees of one file in flight.
pub struct FileProgressView {
    pub label: Seq<char>,
    pub done: u64,
    pub total: u64,
}

/// Byte progress of one file: `(bytes done, bytes total)`; a total of 0
/// means that the size is not known yet.
#[derive(Debug)]
pub struct FileProgress {
    name: String,
    progress: (u64, u64),
}

impl View for FileProgress {
    type V = FileProgressView;

    closed spec fn view(&self) -> FileProgressView {
        FileProgressView { label: self.name@, done: self.progress.0, total: self.progress.1 }
    }
}

impl Clone for FileProgress {
    fn clone(&self) -> (r: Self)
        ensures
            r@ == self@,
    {
        FileProgress { name: self.name.clone(), progress: self.progress }
    }
}

impl FileProgress {
    pub fn new(name: String) -> (r: Self)
        ensures
            r@ == (FileProgressView { label: name@, done: 0, total: 0 }),
    {
        FileProgress { name, progress: (0, 0) }
    }

    pub fn name(&self) -> (r: &String)
        ensures
            r@ == self@.label,
    {
        &self.name
    }

    pub fn set_name(&mut self, name: String)
        ensures
            final(self)@ == (FileProgressView { label: name@, ..old(self)@ }),
    {
        self.name = name;
    }

    pub fn progress(&self) -> (r: (u64, u64))
        ensures
            r == (self@.done, self@.total),
    {
        self.progress
    }

    pub fn set_progress(&mut self, progress: (u64, u64))
        ensures
            final(self)@ == (FileProgressView { done: progress.0, total: progress.1, ..old(self)@ }),
    {
        self.progress = progress;
    }

    pub fn actual_progress(&self) -> (r: u64)
        ensures
            r == self@.done,
    {
        self.progress.0
    }

    pub fn set_actual_progress(&mut self, actual: u64)
        ensures
            final(self)@ == (FileProgressView { done: actual, ..old(self)@ }),
    {
        self.progress.0 = actual;
    }

    pub fn total_progress(&self) -> (r: u64)
        ensures
            r == self@.total,
    {
        self.progress.1
    }

    pub fn finished(&self) -> (r: bool)
        ensures
            r == (self@.done >= self@.total),
    {
        self.progress.0 >= self.progress.1
    }
}

/// What an observer sees of a whole run.
pub struct TrackerView {
    pub state: DownloadState,
    pub progress: (usize, usize),
    pub units: Seq<FileProgressView>,
}

/// The labels of the files in flight, in order of registration.
pub open spec fn unit_labels(units: Seq<FileProgressView>) -> Seq<Seq<char>> {
    units.map_values(|u: FileProgressView| u.label)
}

/// Index of the first unit that carries `label`, if any.
pub open spec fn first_with_label(units: Seq<FileProgressView>, label: Seq<char>, i: int) -> bool {
    &&& 0 <= i < units.len()
    &&& units[i].label == label
    &&& forall|j: int| 0 <= j < i ==> units[j].label != label
}

/// During a batch the completed count stays below the total until the run
/// is finished, and equals it from then on.
pub open spec fn run_consistent(v: TrackerView) -> bool {
    &&& v.state == DownloadState::Downloading ==> v.progress.0 < v.progress.1
    &&& v.state == DownloadState::Finished ==> v.progress.0 == v.progress.1
}

/// Progress of a download operation, shared between the workers of a batch
/// and its observers.
#[derive(Debug)]
pub struct DownloaderTracking {
    state: DownloadState,
    progress: (usize, usize),
    units: Vec<FileProgress>,
}

impl View for DownloaderTracking {
    type V = TrackerView;

    closed spec fn view(&self) -> TrackerView {
        TrackerView {
            state: self.state,
            progress: self.progress,
            units: self.units@.map_values(|u: FileProgress| u@),
        }
    }
}

impl DownloaderTracking {
    pub fn new(progress: (usize, usize)) -> (r: Self)
        ensures
            r@.state == DownloadState::NotDownloading,
            r@.progress == progress,
            r@.units == Seq::<FileProgressView>::empty(),
    {
        let r = DownloaderTracking { state: DownloadState::NotDownloading, progress, units: Vec::new() };
        assert(r@.units =~= Seq::<FileProgressView>::empty());
        r
    }

    pub fn default() -> (r: Self)
        ensures
            r@.state == DownloadState::NotDownloading,
            r@.progress == (0usize, 0usize),
            r@.units == Seq::<FileProgressView>::empty(),
    {
        Self::new((0, 0))
    }

    pub fn state(&self) -> (r: DownloadState)
        ensures
            r == self@.state,
    {
        self.state
    }

    pub fn set_state(&mut self, state: DownloadState)
        ensures
            final(self)@ == (TrackerView { state, ..old(self)@ }),
    {
        self.state = state;
    }

    pub fn progress(&self) -> (r: (usize, usize))
        ensures
            r == self@.progress,
    {
        self.progress
    }

    pub fn set_progress(&mut self, progress: (usize, usize))
        ensures
            final(self)@ == (TrackerView { progress, ..old(self)@ }),
    {
        self.progress = progress;
    }

    pub fn actual_progress(&self) -> (r: usize)
        ensures
            r == self@.progress.0,
    {
        self.progress.0
    }

    pub fn set_actual_progress(&mut self, actual: usize)
        ensures
            final(self)@ == (TrackerView { progress: (actual, old(self)@.progress.1), ..old(self)@ }),
    {
        self.progress.0 = actual;
    }

    pub fn total_progress(&self) -> (r: usize)
        ensures
            r == self@.progress.1,
    {
        self.progress.1
    }

    pub fn finished(&self) -> (r: bool)
        ensures
            r == (self@.progress.0 >= self@.progress.1),
    {
        self.progress.0 >= self.progress.1
    }

    /// A snapshot of the files in flight.
    pub fn units(&self) -> (r: Vec<FileProgress>)
        ensures
            r@.map_values(|u: FileProgress| u@) == self@.units,
    {
        let mut r: Vec<FileProgress> = Vec::new();
        let mut i: usize = 0;
        while i < self.units.len()
            invariant
                i <= self.units.len(),
                r@.len() == i,
                forall|j: int| 0 <= j < i ==> #[trigger] r@[j]@ == self.units@[j]@,
            decreases self.units.len() - i,
        {
            r.push(self.units[i].clone());
            i = i + 1;
        }
        assert(r@.map_values(|u: FileProgress| u@) =~= self@.units);
        r
    }

    /// Registers a file that a worker has started on.
    pub fn add_unit(&mut self, unit: FileProgress)
        ensures
            final(self)@ == (TrackerView { units: old(self)@.units.push(unit@), ..old(self)@ }),
    {
        self.units.push(unit);
        assert(self@.units =~= old(self)@.units.push(unit@));
    }

    /// Position of the first unit labelled `label`.
    fn find_unit(&self, label: &str) -> (r: Option<usize>)
        ensures
            r matches Some(i) ==> first_with_label(self@.units, label@, i as int),
            r is None ==> forall|j: int| 0 <= j < self@.units.len() ==> self@.units[j].label != label@,
    {
        let key = label.to_owned();
        let mut i: usize = 0;
        while i < self.units.len()
            invariant
                i <= self.units.len(),
                key@ == label@,
                forall|j: int| 0 <= j < i ==> self@.units[j].label != label@,
            decreases self.units.len() - i,
        {
            if self.units[i].name == key {
                return Some(i);
            }
            i = i + 1;
        }
        None
    }

    /// Unregisters the earliest registered unit labelled `unit`; another unit
    /// of the same label, registered later for another job, stays.
    pub fn remove_unit(&mut self, unit: String)
        ensures
            final(self)@.state == old(self)@.state,
            final(self)@.progress == old(self)@.progress,
            forall|i: int| first_with_label(old(self)@.units, unit@, i)
                ==> final(self)@.units == old(self)@.units.remove(i),
            (forall|j: int| 0 <= j < old(self)@.units.len() ==> old(self)@.units[j].label != unit@)
                ==> final(self)@.units == old(self)@.units,
    {
        match self.find_unit(unit.as_str()) {
            Some(i) => {
                self.units.remove(i);
                assert(self@.units =~= old(self)@.units.remove(i as int));
            },
            None => {},
        }
    }

    /// Updates the byte progress of the earliest registered unit labelled
    /// `label`; nothing changes when no unit carries it.
    pub fn set_unit_progress(&mut self, label: &str, progress: (u64, u64))
        ensures
            final(self)@.state == old(self)@.state,
            final(self)@.progress == old(self)@.progress,
            forall|i: int| first_with_label(old(self)@.units, label@, i)
                ==> final(self)@.units == old(self)@.units.update(
                    i,
                    FileProgressView { done: progress.0, total: progress.1, ..old(self)@.units[i] },
                ),
            (forall|j: int| 0 <= j < old(self)@.units.len() ==> old(self)@.units[j].label != label@)
                ==> final(self)@.units == old(self)@.units,
    {
        match self.find_unit(label) {
            Some(i) => {
                let mut u = self.units[i].clone();
                u.set_progress(progress);
                self.units.set(i, u);
                assert(self@.units =~= old(self)@.units.update(
                    i as int,
                    FileProgressView { done: progress.0, total: progress.1, ..old(self)@.units[i as int] },
                ));
            },
            None => {},
        }
    }

    /// Counts one more file of the batch as attempted.
    pub fn advance_completed(&mut self)
        requires
            old(self)@.progress.0 < usize::MAX,
        ensures
            final(self)@ == (TrackerView {
                progress: ((old(self)@.progress.0 + 1) as usize, old(self)@.progress.1),
                ..old(self)@
            }),
    {
        self.progress.0 = self.progress.0 + 1;
    }

    /// Returns to the idle state: no counters, no units.
    pub fn clean(&mut self)
        ensures
            final(self)@.state == DownloadState::NotDownloading,
            final(self)@.progress == (0usize, 0usize),
            final(self)@.units == Seq::<FileProgressView>::empty(),
    {
        self.state = DownloadState::NotDownloading;
        self.progress = (0, 0);
        self.units.clear();
        assert(self@.units =~= Seq::<FileProgressView>::empty());
    }

    /// Sets the counters of a batch of `total` files and enters the batch
    /// phase; an empty batch is finished at once.
    pub fn begin_batch(&mut self, total: usize)
        ensures
            final(self)@.progress == (0usize, total),
            final(self)@.state == if total == 0 {
                DownloadState::Finished
            } else {
                DownloadState::Downloading
            },
            final(self)@.units == old(self)@.units,
            run_consistent(final(self)@),
    {
        self.progress = (0, total);
        if total == 0 {
            self.state = DownloadState::Finished;
        } else {
            self.state = DownloadState::Downloading;
        }
    }

    /// A worker is done with the file labelled `label`, successfully or not:
    /// the file counts as attempted, its unit leaves the list, and the run
    /// is finished when the count reaches the total.
    pub fn complete_unit(&mut self, label: String)
        requires
            old(self)@.progress.0 < usize::MAX,
        ensures
            final(self)@.progress == ((old(self)@.progress.0 + 1) as usize, old(self)@.progress.1),
            final(self)@.progress.0 >= old(self)@.progress.0,
            final(self)@.state == if old(self)@.state == DownloadState::Downloading
                && old(self)@.progress.0 + 1 >= old(self)@.progress.1 {
                DownloadState::Finished
            } else {
                old(self)@.state
            },
            forall|i: int| first_with_label(old(self)@.units, label@, i)
                ==> final(self)@.units == old(self)@.units.remove(i),
            (forall|j: int| 0 <= j < old(self)@.units.len() ==> old(self)@.units[j].label != label@)
                ==> final(self)@.units == old(self)@.units,
            old(self)@.state == DownloadState::Downloading && run_consistent(old(self)@)
                ==> run_consistent(final(self)@),
    {
        self.progress.0 = self.progress.0 + 1;
        self.remove_unit(label);
        if self.state == DownloadState::Downloading && self.progress.0 >= self.progress.1 {
            self.state = DownloadState::Finished;
        }
    }
}

} // verus!
