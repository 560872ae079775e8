//! Access to a repository's history.
//!
//! Reading a repository is not part of this crate yet: a service can be
//! opened on any path and reports an empty history.

use crate::models::commit::{Commit, RepoInfo, RepoStats};
use crate::models::report::RepoGroup;
use vstd::prelude::*;

verus! {

/// A handle on the repository at a path.
#[derive(Debug)]
pub struct GitService {
    repo_path: String,
}

impl GitService {
    /// The path the service was opened on.
    pub closed spec fn path(&self) -> Seq<char> {
        self.repo_path@
    }

    /// Opens the repository at `path`. Every path is accepted.
    pub fn open_repo(path: &str) -> (outcome: Result<Self, String>)
        ensures
            outcome matches Ok(service) && service.path() == path@,
    {
        Ok(GitService { repo_path: String::from_str(path) })
    }

    /// The repository's path, name and branch. The name is the path, and no
    /// branch or commit count is known.
    pub fn get_repo_info(&self) -> (outcome: Result<RepoInfo, String>)
        ensures
            outcome matches Ok(info) && info.path@ == self.path() && info.name@ == self.path()
                && info.branch@.len() == 0 && info.total_commits == 0,
    {
        Ok(
            RepoInfo {
                path: self.repo_path.clone(),
                name: self.repo_path.clone(),
                branch: String::new(),
                total_commits: 0,
            },
        )
    }

    /// The commits between `from` and `to`, newest first. None is known.
    pub fn get_commits(&self, from: i64, to: i64) -> (outcome: Result<Vec<Commit>, String>)
        ensures
            outcome matches Ok(commits) && commits@.len() == 0,
    {
        Ok(Vec::new())
    }

    /// The diff of the commit `hash`. None is known.
    pub fn get_commit_diff(&self, hash: &str) -> (outcome: Result<String, String>)
        ensures
            outcome matches Ok(diff) && diff@.len() == 0,
    {
        Ok(String::new())
    }

    /// Statistics over `commits`: their number. Authors, files and lines are
    /// not counted and are reported as zero.
    pub fn get_stats(&self, commits: &[Commit]) -> (stats: RepoStats)
        ensures
            stats.total_commits == commits@.len(),
            stats.authors == 0,
            stats.files_changed == 0,
            stats.insertions == 0,
            stats.deletions == 0,
    {
        RepoStats {
            total_commits: commits.len(),
            authors: 0,
            files_changed: 0,
            insertions: 0,
            deletions: 0,
        }
    }
}

/// Opens the repository at `path` and collects its commits between `from_ts`
/// and `to_ts` into a group that is identified and named by the
/// repository's path.
pub fn collect_repo_group(path: &str, from_ts: i64, to_ts: i64) -> (outcome: Result<RepoGroup, String>)
    ensures
        outcome matches Ok(group) && group.repo_id@ == path@ && group.repo_name@ == path@
            && group.repo_path@ == path@ && group.commits@.len() == 0,
{
    let service = match GitService::open_repo(path) {
        Ok(service) => service,
        Err(e) => {
            return Err(e);
        },
    };
    let info = match service.get_repo_info() {
        Ok(info) => info,
        Err(e) => {
            return Err(e);
        },
    };
    let commits = match service.get_commits(from_ts, to_ts) {
        Ok(commits) => commits,
        Err(e) => {
            return Err(e);
        },
    };
    Ok(
        RepoGroup {
            repo_id: info.path.clone(),
            repo_name: info.name,
            repo_path: info.path,
            commits,
        },
    )
}

} // verus!
