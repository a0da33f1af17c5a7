//! The commit aggregate: metadata plus the per-file statistics of its diff,
//! immutable once constructed.

pub mod delta;
pub mod diff_line;
pub mod file_stat;
pub mod loader;
pub mod status;
pub mod user;

use crate::commit::file_stat::{FileStat, FileStatV};
use crate::commit::user::{User, UserV};
use vstd::prelude::*;

verus! {

/// Mathematical model of a `Commit`.
#[verifier::ext_equal]
pub struct CommitV {
    pub hash: Seq<char>,
    pub author: UserV,
    pub committer: UserV,
    pub date: i64,
    pub file_stats: Option<Seq<FileStatV>>,
    pub body: Option<Seq<char>>,
}

/// One loaded commit: hash, author, committer, timestamp, body, and file
/// statistics (absent exactly for a root commit).
#[derive(Debug)]
pub struct Commit {
    pub hash: String,
    pub author: User,
    pub committer: User,
    pub date: i64,
    pub file_stats: Option<Vec<FileStat>>,
    pub body: Option<String>,
}

/// The model of an optional statistics list.
pub open spec fn spec_stats_view(stats: Option<Vec<FileStat>>) -> Option<Seq<FileStatV>> {
    match stats {
        Some(v) => Some(v@.map_values(|f: FileStat| f@)),
        None => None,
    }
}

impl View for Commit {
    type V = CommitV;

    open spec fn view(&self) -> CommitV {
        CommitV {
            hash: self.hash@,
            author: self.author@,
            committer: self.committer@,
            date: self.date,
            file_stats: spec_stats_view(self.file_stats),
            body: self.body.deep_view(),
        }
    }
}

impl Commit {
    /// Assemble a commit from already-resolved parts.
    pub fn new(
        hash: String,
        author: User,
        committer: User,
        date: i64,
        file_stats: Option<Vec<FileStat>>,
        body: Option<String>,
    ) -> (r: Self)
        ensures
            r@ == (CommitV {
                hash: hash@,
                author: author@,
                committer: committer@,
                date,
                file_stats: spec_stats_view(file_stats),
                body: body.deep_view(),
            }),
    {
        Commit { hash, author, committer, date, file_stats, body }
    }

    /// The commit's full hash.
    pub fn get_hash(&self) -> (r: &String)
        ensures
            r@ == self@.hash,
    {
        &self.hash
    }

    /// The commit's author.
    pub fn get_author(&self) -> (r: &User)
        ensures
            r@ == self@.author,
    {
        &self.author
    }

    /// The commit's committer (empty when it was suppressed as equal to the
    /// author).
    pub fn get_committer(&self) -> (r: &User)
        ensures
            r@ == self@.committer,
    {
        &self.committer
    }

    /// The commit's timestamp, in seconds.
    pub fn get_date(&self) -> (r: i64)
        ensures
            r == self@.date,
    {
        self.date
    }

    /// The commit's message body, if any.
    pub fn get_body(&self) -> (r: &Option<String>)
        ensures
            r.deep_view() == self@.body,
    {
        &self.body
    }

    /// The commit's file statistics; absent exactly for a root commit.
    pub fn get_file_stats(&self) -> (r: &Option<Vec<FileStat>>)
        ensures
            spec_stats_view(*r) == self@.file_stats,
            r is Some <==> self@.file_stats is Some,
    {
        &self.file_stats
    }
}

} // verus!
