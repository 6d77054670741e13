//! The operations that a front end calls: list, register, annotate, delete and synchronize
//! projects, with every error and every outcome going to the capped log.
//!
//! The manager owns the project store, the log and the last reported completion fraction. It
//! reads no file and opens no repository: the caller hands in what it read and found, and
//! writes the durable image from [`Manager::snapshot`] after every registration that
//! succeeded, after every deletion and when it shuts down.

use vstd::prelude::*;
use crate::engine::{Progress, ProgressView, SyncReport, SyncRun, SyncRunView, DEFAULT_BRANCH};
use crate::log::{newest, split_lines, LogSink, LOG_CAPACITY};
use crate::outcome::Severity;
use crate::project::{ProjectRecord, ProjectView, views_of};
use crate::selection::{
    at_positions, flagged, flagged_positions, index_set, selected_indices, without_positions,
};
use crate::store::{
    admission, after_registration, PersistenceError, ProjectStore, RegistrationError,
    RepositoryProbe,
};

verus! {

/// Mathematical value of a [`Manager`].
#[verifier::ext_equal]
pub struct ManagerView {
    /// The registered projects in store order.
    pub projects: Seq<ProjectView>,
    /// The log lines, oldest first.
    pub log: Seq<Seq<char>>,
    /// The completion fraction of the last report, if a report was recorded.
    pub progress: Option<ProgressView>,
}

impl ManagerView {
    /// The value with `entry` appended to its log: the entry is cut at its line feeds, and
    /// the log keeps its newest lines.
    pub open spec fn logged(self, entry: Seq<char>) -> ManagerView {
        ManagerView {
            log: newest(self.log + split_lines(entry), LOG_CAPACITY as nat),
            ..self
        }
    }
}

/// Project store, log and progress behind one set of operations.
pub struct Manager {
    store: ProjectStore,
    log: LogSink,
    progress: Option<Progress>,
}

impl View for Manager {
    type V = ManagerView;

    closed spec fn view(&self) -> ManagerView {
        ManagerView {
            projects: self.store@,
            log: self.log@,
            progress: match self.progress {
                Some(progress) => Some(progress@),
                None => None,
            },
        }
    }
}

impl Manager {
    /// The manager at startup, from what reading the durable image gave: the projects that
    /// were read, or none when the image was missing or could not be parsed. The log is empty
    /// and no progress has been reported.
    pub fn startup(loaded: Option<Vec<ProjectRecord>>) -> (manager: Manager)
        ensures
            manager@.projects == match loaded {
                Some(records) => views_of(records@),
                None => Seq::<ProjectView>::empty(),
            },
            manager@.log == Seq::<Seq<char>>::empty(),
            manager@.progress is None,
    {
        Manager { store: ProjectStore::restore(loaded), log: LogSink::new(), progress: None }
    }

    /// The registered projects in store order.
    pub fn list_projects(&self) -> (records: &Vec<ProjectRecord>)
        ensures
            views_of(records@) == self@.projects,
    {
        self.store.records()
    }

    /// The project store.
    pub fn store(&self) -> (store: &ProjectStore)
        ensures
            store@ == self@.projects,
    {
        &self.store
    }

    /// The log.
    pub fn log(&self) -> (log: &LogSink)
        ensures
            log@ == self@.log,
    {
        &self.log
    }

    /// The completion fraction of the last recorded report, if there is one.
    pub fn progress(&self) -> (progress: Option<Progress>)
        ensures
            match progress {
                Some(p) => self@.progress == Some(p@),
                None => self@.progress is None,
            },
    {
        self.progress
    }

    /// A copy of the registered projects in store order: what the durable image has to hold.
    pub fn snapshot(&self) -> (records: Vec<ProjectRecord>)
        ensures
            views_of(records@) == self@.projects,
    {
        self.store.snapshot()
    }

    /// Registers `candidate`, given what a read-only look at its path found. On success the
    /// candidate is appended to the store and nothing is logged. On failure the store stays
    /// as it was and one error entry that says why is appended to the log.
    pub fn register_project(&mut self, candidate: &ProjectRecord, probe: RepositoryProbe) -> (result:
        Result<(), RegistrationError>)
        ensures
            result == admission(candidate@, probe),
            final(self)@.projects == after_registration(old(self)@.projects, candidate@, probe),
            final(self)@.progress == old(self)@.progress,
            final(self)@.log == match result {
                Ok(_) => old(self)@.log,
                Err(error) => old(self)@.logged(
                    Severity::Error.tag() + error.message(candidate@),
                ).log,
            },
    {
        let result = self.store.register(candidate, probe);
        match result {
            Ok(_) => {},
            Err(error) => {
                let message = error.message_text(candidate);
                self.log.error(message.as_str());
            },
        }
        result
    }

    /// Replaces the notes of the project at `index`; an index beyond the end changes nothing.
    pub fn set_notes(&mut self, index: usize, notes: String)
        ensures
            final(self)@.log == old(self)@.log,
            final(self)@.progress == old(self)@.progress,
            index < old(self)@.projects.len() ==> final(self)@.projects == old(
                self,
            )@.projects.update(
                index as int,
                ProjectView { notes: notes@, ..old(self)@.projects[index as int] },
            ),
            index >= old(self)@.projects.len() ==> final(self)@.projects == old(self)@.projects,
    {
        self.store.set_notes(index, notes);
    }

    /// Deletes the projects at the given positions of the store. The list is read as a set,
    /// the other projects keep their order, and an index beyond the end is skipped.
    pub fn delete_projects(&mut self, indices: &Vec<usize>)
        ensures
            final(self)@.projects == without_positions(old(self)@.projects, index_set(indices@)),
            final(self)@.log == old(self)@.log,
            final(self)@.progress == old(self)@.progress,
    {
        self.store.remove(indices);
    }

    /// Deletes the projects at the flagged positions of the store.
    pub fn delete_flagged(&mut self, flags: &Vec<bool>)
        ensures
            final(self)@.projects == without_positions(old(self)@.projects, flagged(flags@)),
            final(self)@.log == old(self)@.log,
            final(self)@.progress == old(self)@.progress,
    {
        self.store.remove_flagged(flags);
    }

    /// Starts a synchronization of the projects at the given positions, in the order of
    /// `indices`, on the default branch. An index beyond the end of the store is skipped.
    pub fn begin_sync(&self, indices: &Vec<usize>) -> (run: SyncRun)
        ensures
            run@ == SyncRunView::initial(
                at_positions(self@.projects, indices@),
                DEFAULT_BRANCH@,
            ),
            run@.wf(),
    {
        SyncRun::start(self.store.select(indices))
    }

    /// Starts a synchronization of the projects at the flagged positions, in store order, on
    /// the default branch.
    pub fn begin_sync_flagged(&self, flags: &Vec<bool>) -> (run: SyncRun)
        ensures
            run@ == SyncRunView::initial(
                at_positions(self@.projects, flagged_positions(flags@)),
                DEFAULT_BRANCH@,
            ),
            run@.wf(),
    {
        let indices = selected_indices(flags);
        self.begin_sync(&indices)
    }

    /// Takes in the report of one synchronized project: its log entry is appended to the log
    /// and its completion fraction becomes the current one. The store is not touched.
    pub fn record(&mut self, report: &SyncReport)
        ensures
            final(self)@ == (ManagerView {
                progress: Some(report@.progress),
                ..old(self)@.logged(report@.line)
            }),
    {
        self.log.append(report.line.clone());
        self.progress = Some(report.progress);
    }

    /// Takes in a failure to write the durable image: one error entry is appended to the
    /// log, and the store, which stays authoritative, is not touched.
    pub fn persistence_failed(&mut self, error: &PersistenceError)
        ensures
            final(self)@ == old(self)@.logged(Severity::Error.tag() + error.message()),
    {
        let message = error.message_text();
        self.log.error(message.as_str());
    }
}

} // verus!
