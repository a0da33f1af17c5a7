//! Change kinds reported by the diff walk, and the status a finished file
//! statistic carries.

use vstd::prelude::*;

verus! {

/// The kind of change a file-boundary event reports.
#[derive(Clone, Copy, Debug, PartialEq, Eq, Structural)]
pub enum ChangeKind {
    Unmodified,
    Added,
    Deleted,
    Modified,
    Renamed,
    Copied,
    Typechange,
    Other,
}

/// The change status of one file within a commit's diff.
#[derive(Clone, Copy, Debug, PartialEq, Eq, Structural)]
pub enum Status {
    Added,
    Deleted,
    Modified,
    Renamed,
    Copied,
    Typechange,
    Other,
}

/// The status that a change kind maps to (unmodified entries are filtered out
/// before this mapping is ever consulted, so they fall to the diagnostic
/// fallback).
pub open spec fn spec_status_of_kind(k: ChangeKind) -> Status {
    match k {
        ChangeKind::Added => Status::Added,
        ChangeKind::Deleted => Status::Deleted,
        ChangeKind::Modified => Status::Modified,
        ChangeKind::Renamed => Status::Renamed,
        ChangeKind::Copied => Status::Copied,
        ChangeKind::Typechange => Status::Typechange,
        ChangeKind::Unmodified => Status::Other,
        ChangeKind::Other => Status::Other,
    }
}

impl Status {
    /// Derive the status for a file-boundary event's change kind.
    pub fn from_change_kind(k: ChangeKind) -> (r: Self)
        ensures
            r == spec_status_of_kind(k),
    {
        match k {
            ChangeKind::Added => Status::Added,
            ChangeKind::Deleted => Status::Deleted,
            ChangeKind::Modified => Status::Modified,
            ChangeKind::Renamed => Status::Renamed,
            ChangeKind::Copied => Status::Copied,
            ChangeKind::Typechange => Status::Typechange,
            ChangeKind::Unmodified => Status::Other,
            ChangeKind::Other => Status::Other,
        }
    }
}

} // verus!
