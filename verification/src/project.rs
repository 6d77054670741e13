//! The record kept for one registered project.

use vstd::prelude::*;

verus! {

/// Mathematical value of a [`ProjectRecord`]: its three texts as character sequences.
#[verifier::ext_equal]
pub struct ProjectView {
    pub path: Seq<char>,
    pub name: Seq<char>,
    pub notes: Seq<char>,
}

impl ProjectView {
    /// A record can only be registered when both its path and its name are non-empty.
    /// The notes are never looked at.
    pub open spec fn has_required_fields(self) -> bool {
        self.path.len() > 0 && self.name.len() > 0
    }
}

/// A registered local clone: where it lives, what it is called, and free-form notes.
#[derive(Debug, PartialEq, Eq)]
pub struct ProjectRecord {
    pub path: String,
    pub name: String,
    pub notes: String,
}

impl View for ProjectRecord {
    type V = ProjectView;

    open spec fn view(&self) -> ProjectView {
        ProjectView { path: self.path@, name: self.name@, notes: self.notes@ }
    }
}

impl Clone for ProjectRecord {
    fn clone(&self) -> (copy: ProjectRecord)
        ensures
            copy@ == self@,
    {
        ProjectRecord {
            path: self.path.clone(),
            name: self.name.clone(),
            notes: self.notes.clone(),
        }
    }
}

impl ProjectRecord {
    /// Builds a record from its three texts.
    pub fn new(path: String, name: String, notes: String) -> (record: ProjectRecord)
        ensures
            record@ == (ProjectView { path: path@, name: name@, notes: notes@ }),
    {
        ProjectRecord { path, name, notes }
    }

    /// Tells whether both the path and the name are non-empty.
    pub fn has_required_fields(&self) -> (ok: bool)
        ensures
            ok == self@.has_required_fields(),
    {
        !self.path.as_str().is_empty() && !self.name.as_str().is_empty()
    }
}

/// The values of a sequence of records, position by position.
pub open spec fn views_of(records: Seq<ProjectRecord>) -> Seq<ProjectView> {
    records.map_values(|r: ProjectRecord| r@)
}

/// Appending a record appends its value.
pub proof fn views_of_push(records: Seq<ProjectRecord>, record: ProjectRecord)
    ensures
        views_of(records.push(record)) == views_of(records).push(record@),
{
    assert(views_of(records.push(record)) =~= views_of(records).push(record@));
}

/// Copies every record of `records`, keeping the order.
pub fn clone_records(records: &Vec<ProjectRecord>) -> (copy: Vec<ProjectRecord>)
    ensures
        views_of(copy@) == views_of(records@),
{
    let mut copy: Vec<ProjectRecord> = Vec::new();
    let mut i: usize = 0;
    while i < records.len()
        invariant
            i <= records.len(),
            views_of(copy@) == views_of(records@.take(i as int)),
        decreases records.len() - i,
    {
        let ghost before = copy@;
        let record = records[i].clone();
        copy.push(record);
        proof {
            assert(records@.take(i + 1) == records@.take(i as int).push(records@[i as int]));
            views_of_push(before, record);
            views_of_push(records@.take(i as int), records@[i as int]);
        }
        i += 1;
    }
    proof {
        assert(records@.take(records.len() as int) == records@);
    }
    copy
}

} // verus!
