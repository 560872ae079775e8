//! Commit records and repository summaries.

use vstd::prelude::*;

verus! {

/// An immutable snapshot of one commit.
#[derive(Debug, PartialEq, Eq)]
pub struct Commit {
    pub hash: String,
    pub author: String,
    pub email: String,
    pub timestamp: i64,
    pub message: String,
    pub diff: Option<String>,
}

/// Mathematical model of a [`Commit`].
pub ghost struct CommitView {
    pub hash: Seq<char>,
    pub author: Seq<char>,
    pub email: Seq<char>,
    pub timestamp: int,
    pub message: Seq<char>,
    pub diff: Option<Seq<char>>,
}

impl View for Commit {
    type V = CommitView;

    open spec fn view(&self) -> CommitView {
        CommitView {
            hash: self.hash@,
            author: self.author@,
            email: self.email@,
            timestamp: self.timestamp as int,
            message: self.message@,
            diff: match self.diff {
                Some(d) => Some(d@),
                None => None,
            },
        }
    }
}

impl Clone for Commit {
    fn clone(&self) -> (copy: Self)
        ensures
            copy == *self,
    {
        let diff = match &self.diff {
            Some(d) => Some(d.clone()),
            None => None,
        };
        Commit {
            hash: self.hash.clone(),
            author: self.author.clone(),
            email: self.email.clone(),
            timestamp: self.timestamp,
            message: self.message.clone(),
            diff,
        }
    }
}

/// The views of a sequence of commits, in order.
pub open spec fn commit_views(commits: Seq<Commit>) -> Seq<CommitView> {
    commits.map_values(|c: Commit| c@)
}

/// Copies a list of commits.
pub fn clone_commits(commits: &Vec<Commit>) -> (copy: Vec<Commit>)
    ensures
        copy@ == commits@,
{
    let mut copy: Vec<Commit> = Vec::new();
    let mut i: usize = 0;
    while i < commits.len()
        invariant
            i <= commits.len(),
            copy@ == commits@.take(i as int),
        decreases commits.len() - i,
    {
        copy.push(commits[i].clone());
        assert(copy@ == commits@.take(i + 1)) by {
            assert(commits@.take(i + 1) == commits@.take(i as int).push(commits@[i as int]));
        }
        i += 1;
    }
    assert(commits@.take(commits.len() as int) == commits@);
    copy
}

/// Summary of an opened repository.
#[derive(Debug, PartialEq, Eq)]
pub struct RepoInfo {
    pub path: String,
    pub name: String,
    pub branch: String,
    pub total_commits: usize,
}

impl Clone for RepoInfo {
    fn clone(&self) -> (copy: Self)
        ensures
            copy == *self,
    {
        RepoInfo {
            path: self.path.clone(),
            name: self.name.clone(),
            branch: self.branch.clone(),
            total_commits: self.total_commits,
        }
    }
}

/// Aggregate figures over a list of commits of one repository.
#[derive(Debug, Clone, Copy, PartialEq, Eq)]
pub struct RepoStats {
    pub total_commits: usize,
    pub authors: usize,
    pub files_changed: usize,
    pub insertions: usize,
    pub deletions: usize,
}

} // verus!
