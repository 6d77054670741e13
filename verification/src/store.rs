//! The project store: the ordered collection of registered projects.
//!
//! The store keeps insertion order, which is also the order in which projects are listed and
//! selected. It admits a record only through [`ProjectStore::register`], which needs to be
//! told what a read-only look at the candidate's path found. Reading and writing the durable
//! image is the caller's part: [`ProjectStore::restore`] takes what was read, and
//! [`ProjectStore::snapshot`] gives what is to be written.

use vstd::prelude::*;
use vstd::string::StringExecFns;
use crate::project::{ProjectRecord, ProjectView, clone_records, views_of, views_of_push};
use crate::selection::{
    at_positions, below, flagged, flags_of, highest_position_first, index_set,
    positions_outside_are_ignored, removing_nothing_changes_nothing, without_positions,
};

verus! {

/// Why a candidate was not admitted.
#[derive(Debug, Clone, Copy, PartialEq, Eq, Structural)]
pub enum RegistrationError {
    /// The path or the name is empty.
    EmptyField,
    /// The path does not open as a git repository.
    NotARepository,
    /// The repository has no remote named `origin`.
    NoOriginRemote,
}

/// What a read-only look at a candidate's path found.
#[derive(Debug, Clone, Copy, PartialEq, Eq, Structural)]
pub enum RepositoryProbe {
    /// The path does not open as a git repository.
    Unopenable,
    /// The repository opens but has no remote named `origin`.
    MissingOrigin,
    /// The repository opens and has a remote named `origin`.
    HasOrigin,
}

/// The rule of admission. Empty fields are checked first and fail whatever the notes are and
/// whatever the probe says; then the probe decides.
pub open spec fn admission(candidate: ProjectView, probe: RepositoryProbe) -> Result<
    (),
    RegistrationError,
> {
    if !candidate.has_required_fields() {
        Err(RegistrationError::EmptyField)
    } else {
        match probe {
            RepositoryProbe::Unopenable => Err(RegistrationError::NotARepository),
            RepositoryProbe::MissingOrigin => Err(RegistrationError::NoOriginRemote),
            RepositoryProbe::HasOrigin => Ok(()),
        }
    }
}

/// The collection after one registration attempt: the candidate is appended when it is
/// admitted, and nothing changes when it is not.
pub open spec fn after_registration(
    records: Seq<ProjectView>,
    candidate: ProjectView,
    probe: RepositoryProbe,
) -> Seq<ProjectView> {
    if admission(candidate, probe) is Ok {
        records.push(candidate)
    } else {
        records
    }
}

/// The collection after a series of registration attempts, each a candidate with its probe.
pub open spec fn after_registrations(
    records: Seq<ProjectView>,
    attempts: Seq<(ProjectView, RepositoryProbe)>,
) -> Seq<ProjectView>
    decreases attempts.len(),
{
    if attempts.len() == 0 {
        records
    } else {
        after_registration(
            after_registrations(records, attempts.drop_last()),
            attempts.last().0,
            attempts.last().1,
        )
    }
}

/// After a series of registrations that all succeed, the collection holds what it held
/// before, followed by the candidates in the order in which they were registered.
pub proof fn registrations_keep_insertion_order(
    records: Seq<ProjectView>,
    attempts: Seq<(ProjectView, RepositoryProbe)>,
)
    requires
        forall|k: int| 0 <= k < attempts.len() ==> admission(attempts[k].0, attempts[k].1) is Ok,
    ensures
        after_registrations(records, attempts) == records + attempts.map_values(
            |attempt: (ProjectView, RepositoryProbe)| attempt.0,
        ),
    decreases attempts.len(),
{
    if attempts.len() > 0 {
        registrations_keep_insertion_order(records, attempts.drop_last());
    }
}

/// A registration that fails leaves the collection as it was, and says why: an empty path or
/// name gives `EmptyField` whatever the notes and the probe are; with both present, a path
/// that is no repository gives `NotARepository`, and one without `origin` gives
/// `NoOriginRemote`.
pub proof fn rejected_registration_changes_nothing(
    records: Seq<ProjectView>,
    candidate: ProjectView,
    probe: RepositoryProbe,
)
    ensures
        admission(candidate, probe) is Err ==> after_registration(records, candidate, probe)
            == records,
        (candidate.path.len() == 0 || candidate.name.len() == 0) ==> admission(candidate, probe)
            == Err::<(), RegistrationError>(RegistrationError::EmptyField),
        candidate.has_required_fields() && probe == RepositoryProbe::Unopenable ==> admission(
            candidate,
            probe,
        ) == Err::<(), RegistrationError>(RegistrationError::NotARepository),
        candidate.has_required_fields() && probe == RepositoryProbe::MissingOrigin ==> admission(
            candidate,
            probe,
        ) == Err::<(), RegistrationError>(RegistrationError::NoOriginRemote),
        admission(candidate, probe) is Ok <==> candidate.has_required_fields() && probe
            == RepositoryProbe::HasOrigin,
{
}

impl RegistrationError {
    /// The text that tells the user why `candidate` was refused, without a severity tag.
    pub open spec fn message(self, candidate: ProjectView) -> Seq<char> {
        match self {
            RegistrationError::EmptyField => "项目路径和名称不能为空"@,
            RegistrationError::NotARepository => "项目路径 "@ + candidate.path
                + " 不存在或不是一个有效的Git仓库"@,
            RegistrationError::NoOriginRemote => "项目 "@ + candidate.name
                + " 不是一个有效的Git仓库或没有origin远程仓库"@,
        }
    }

    /// Builds the text of [`RegistrationError::message`].
    pub fn message_text(self, candidate: &ProjectRecord) -> (text: String)
        ensures
            text@ == self.message(candidate@),
    {
        match self {
            RegistrationError::EmptyField => String::from_str("项目路径和名称不能为空"),
            RegistrationError::NotARepository => {
                let mut text = String::from_str("项目路径 ");
                text.append(candidate.path.as_str());
                text.append(" 不存在或不是一个有效的Git仓库");
                text
            },
            RegistrationError::NoOriginRemote => {
                let mut text = String::from_str("项目 ");
                text.append(candidate.name.as_str());
                text.append(" 不是一个有效的Git仓库或没有origin远程仓库");
                text
            },
        }
    }
}

/// The durable image could not be written. The text is the underlying error.
#[derive(Debug, PartialEq, Eq)]
pub enum PersistenceError {
    WriteFailed(String),
}

impl PersistenceError {
    /// The text that reports the failure, without a severity tag.
    pub open spec fn message(self) -> Seq<char> {
        match self {
            PersistenceError::WriteFailed(reason) => "无法保存配置文件: "@ + reason@,
        }
    }

    /// Builds the text of [`PersistenceError::message`].
    pub fn message_text(&self) -> (text: String)
        ensures
            text@ == self.message(),
    {
        match self {
            PersistenceError::WriteFailed(reason) => {
                let mut text = String::from_str("无法保存配置文件: ");
                text.append(reason.as_str());
                text
            },
        }
    }
}

/// The ordered collection of registered projects.
pub struct ProjectStore {
    records: Vec<ProjectRecord>,
}

impl View for ProjectStore {
    type V = Seq<ProjectView>;

    closed spec fn view(&self) -> Seq<ProjectView> {
        views_of(self.records@)
    }
}

impl ProjectStore {
    /// An empty store.
    pub fn new() -> (store: ProjectStore)
        ensures
            store@ == Seq::<ProjectView>::empty(),
    {
        ProjectStore { records: Vec::new() }
    }

    /// A store that holds `records` in their order.
    pub fn from_records(records: Vec<ProjectRecord>) -> (store: ProjectStore)
        ensures
            store@ == views_of(records@),
    {
        ProjectStore { records }
    }

    /// The store at startup, from what reading the durable image gave: its records, or none
    /// when the image was missing or could not be parsed. Startup never fails: without an
    /// image the store is empty.
    pub fn restore(loaded: Option<Vec<ProjectRecord>>) -> (store: ProjectStore)
        ensures
            store@ == match loaded {
                Some(records) => views_of(records@),
                None => Seq::<ProjectView>::empty(),
            },
    {
        match loaded {
            Some(records) => ProjectStore { records },
            None => ProjectStore { records: Vec::new() },
        }
    }

    /// Number of registered projects.
    pub fn len(&self) -> (len: usize)
        ensures
            len == self@.len(),
    {
        self.records.len()
    }

    /// Tells whether no project is registered.
    pub fn is_empty(&self) -> (empty: bool)
        ensures
            empty == (self@.len() == 0),
    {
        self.records.len() == 0
    }

    /// The record at `index`, if there is one.
    pub fn get(&self, index: usize) -> (record: Option<&ProjectRecord>)
        ensures
            match record {
                Some(r) => index < self@.len() && r@ == self@[index as int],
                None => index >= self@.len(),
            },
    {
        if index < self.records.len() {
            Some(&self.records[index])
        } else {
            None
        }
    }

    /// The registered projects in store order.
    pub fn records(&self) -> (records: &Vec<ProjectRecord>)
        ensures
            views_of(records@) == self@,
    {
        &self.records
    }

    /// A copy of the whole collection in store order: what the durable image has to hold.
    pub fn snapshot(&self) -> (records: Vec<ProjectRecord>)
        ensures
            views_of(records@) == self@,
    {
        clone_records(&self.records)
    }

    /// Replaces the notes of the record at `index`. Path and name cannot be changed. An index
    /// beyond the end changes nothing.
    pub fn set_notes(&mut self, index: usize, notes: String)
        ensures
            index < old(self)@.len() ==> final(self)@ == old(self)@.update(
                index as int,
                ProjectView { notes: notes@, ..old(self)@[index as int] },
            ),
            index >= old(self)@.len() ==> final(self)@ == old(self)@,
    {
        if index < self.records.len() {
            let record = ProjectRecord {
                path: self.records[index].path.clone(),
                name: self.records[index].name.clone(),
                notes,
            };
            self.records.set(index, record);
            assert(views_of(self.records@) =~= views_of(old(self).records@).update(
                index as int,
                record@,
            ));
        }
    }

    /// Registers `candidate`, given what a read-only look at its path found. By
    /// [`admission`], the candidate is appended at the end when its path and name are
    /// non-empty and the probe found a repository with an `origin` remote; otherwise the error
    /// says what was wrong and the store stays as it was.
    pub fn register(&mut self, candidate: &ProjectRecord, probe: RepositoryProbe) -> (result:
        Result<(), RegistrationError>)
        ensures
            result == admission(candidate@, probe),
            final(self)@ == after_registration(old(self)@, candidate@, probe),
    {
        if !candidate.has_required_fields() {
            return Err(RegistrationError::EmptyField);
        }
        match probe {
            RepositoryProbe::Unopenable => Err(RegistrationError::NotARepository),
            RepositoryProbe::MissingOrigin => Err(RegistrationError::NoOriginRemote),
            RepositoryProbe::HasOrigin => {
                let record = candidate.clone();
                proof {
                    views_of_push(self.records@, record);
                }
                self.records.push(record);
                Ok(())
            },
        }
    }

    /// Removes the records at the flagged positions. The others keep their order. Flags
    /// beyond the end of the store are ignored, and positions without a flag stay.
    pub fn remove_flagged(&mut self, flags: &Vec<bool>)
        ensures
            final(self)@ == without_positions(old(self)@, flagged(flags@)),
    {
        let ghost start = self@;
        let ghost marked = flagged(flags@);
        let mut i: usize = self.records.len();
        proof {
            positions_outside_are_ignored(start, marked, below(marked, i as int));
        }
        while i > 0
            invariant
                i <= self.records.len(),
                marked == flagged(flags@),
                without_positions(self@, below(marked, i as int)) == without_positions(
                    start,
                    marked,
                ),
            decreases i,
        {
            i -= 1;
            let ghost before = self@;
            if i < flags.len() && flags[i] {
                self.records.remove(i);
                proof {
                    assert(self@ =~= before.remove(i as int));
                    highest_position_first(before, below(marked, i + 1), i as int);
                    assert(below(marked, i + 1).remove(i as int) =~= below(marked, i as int));
                }
            } else {
                proof {
                    assert(below(marked, i + 1) =~= below(marked, i as int));
                }
            }
        }
        proof {
            removing_nothing_changes_nothing(self@, below(marked, 0));
        }
    }

    /// Removes the records at the given positions. The list is read as a set: order and
    /// repetition play no part. The other records keep their order, and an index beyond the
    /// end of the store is skipped.
    pub fn remove(&mut self, indices: &Vec<usize>)
        ensures
            final(self)@ == without_positions(old(self)@, index_set(indices@)),
    {
        let flags = flags_of(indices, self.records.len());
        proof {
            positions_outside_are_ignored(self@, flagged(flags@), index_set(indices@));
        }
        self.remove_flagged(&flags);
    }

    /// Copies of the records at the given positions, in the order of `indices`. An index
    /// beyond the end of the store is skipped.
    pub fn select(&self, indices: &Vec<usize>) -> (selected: Vec<ProjectRecord>)
        ensures
            views_of(selected@) == at_positions(self@, indices@),
    {
        let mut selected: Vec<ProjectRecord> = Vec::new();
        let mut k: usize = 0;
        while k < indices.len()
            invariant
                k <= indices.len(),
                views_of(selected@) == at_positions(self@, indices@.take(k as int)),
            decreases indices.len() - k,
        {
            proof {
                assert(indices@.take(k + 1).drop_last() == indices@.take(k as int));
            }
            let index: usize = indices[k];
            if index < self.records.len() {
                let record = self.records[index].clone();
                proof {
                    views_of_push(selected@, record);
                }
                selected.push(record);
            }
            k += 1;
        }
        proof {
            assert(indices@.take(indices.len() as int) == indices@);
        }
        selected
    }
}

} // verus!
