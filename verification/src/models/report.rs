//! Reports and the repository groups they are built from.

use super::commit::{clone_commits, commit_views, Commit, CommitView};
use vstd::prelude::*;

verus! {

/// The most commits a weekly report is built from.
pub const WEEKLY_COMMIT_CAP: usize = 50;

/// The most commits a monthly report is built from.
pub const MONTHLY_COMMIT_CAP: usize = 100;

/// The kind of report.
#[derive(Debug, Clone, Copy, PartialEq, Eq, Structural)]
pub enum ReportType {
    Weekly,
    Monthly,
    Custom,
}

impl ReportType {
    /// The most commits a report of this kind holds. A custom report is not
    /// truncated.
    pub open spec fn cap(self) -> nat {
        match self {
            ReportType::Weekly => WEEKLY_COMMIT_CAP as nat,
            ReportType::Monthly => MONTHLY_COMMIT_CAP as nat,
            ReportType::Custom => usize::MAX as nat,
        }
    }

    /// Returns [`ReportType::cap`].
    pub fn commit_cap(self) -> (cap: usize)
        ensures
            cap == self.cap(),
    {
        match self {
            ReportType::Weekly => WEEKLY_COMMIT_CAP,
            ReportType::Monthly => MONTHLY_COMMIT_CAP,
            ReportType::Custom => usize::MAX,
        }
    }
}

/// One repository's commits within the reporting window, newest first.
#[derive(Debug, PartialEq, Eq)]
pub struct RepoGroup {
    pub repo_id: String,
    pub repo_name: String,
    pub repo_path: String,
    pub commits: Vec<Commit>,
}

/// Mathematical model of a [`RepoGroup`].
pub ghost struct RepoGroupView {
    pub repo_id: Seq<char>,
    pub repo_name: Seq<char>,
    pub repo_path: Seq<char>,
    pub commits: Seq<CommitView>,
}

impl View for RepoGroup {
    type V = RepoGroupView;

    open spec fn view(&self) -> RepoGroupView {
        RepoGroupView {
            repo_id: self.repo_id@,
            repo_name: self.repo_name@,
            repo_path: self.repo_path@,
            commits: commit_views(self.commits@),
        }
    }
}

impl Clone for RepoGroup {
    fn clone(&self) -> (copy: Self)
        ensures
            copy@ == self@,
            copy.repo_id == self.repo_id,
            copy.repo_name == self.repo_name,
            copy.repo_path == self.repo_path,
            copy.commits@ == self.commits@,
    {
        RepoGroup {
            repo_id: self.repo_id.clone(),
            repo_name: self.repo_name.clone(),
            repo_path: self.repo_path.clone(),
            commits: clone_commits(&self.commits),
        }
    }
}

/// A generated report together with the commits its prompt was built from.
#[derive(Debug, PartialEq, Eq)]
pub struct Report {
    pub id: String,
    pub report_type: ReportType,
    pub generated_at: i64,
    pub content: String,
    pub commits: Vec<Commit>,
}

/// Mathematical model of a [`Report`].
pub ghost struct ReportView {
    pub id: Seq<char>,
    pub report_type: ReportType,
    pub generated_at: int,
    pub content: Seq<char>,
    pub commits: Seq<CommitView>,
}

impl View for Report {
    type V = ReportView;

    open spec fn view(&self) -> ReportView {
        ReportView {
            id: self.id@,
            report_type: self.report_type,
            generated_at: self.generated_at as int,
            content: self.content@,
            commits: commit_views(self.commits@),
        }
    }
}

impl Clone for Report {
    fn clone(&self) -> (copy: Self)
        ensures
            copy@ == self@,
            copy.id == self.id,
            copy.report_type == self.report_type,
            copy.generated_at == self.generated_at,
            copy.content == self.content,
            copy.commits@ == self.commits@,
    {
        Report {
            id: self.id.clone(),
            report_type: self.report_type,
            generated_at: self.generated_at,
            content: self.content.clone(),
            commits: clone_commits(&self.commits),
        }
    }
}

impl Report {
    /// A report never holds more commits than its kind allows.
    pub open spec fn well_formed(&self) -> bool {
        self.commits@.len() <= self.report_type.cap()
    }
}

} // verus!
