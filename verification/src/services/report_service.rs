//! Report generation for a configured provider.

use crate::models::commit::Commit;
use crate::models::config::LLMProviderView;
use crate::models::report::{RepoGroup, ReportType};
use crate::services::aggregator::{
    bucket_seqs, grouped_by_week, unique_author_count, CommitAggregator, ReportStats,
};
use crate::services::generation::{Action, Generation};
use crate::services::llm_service::LLMService;
use vstd::prelude::*;

verus! {

/// Generates weekly and monthly reports with one provider.
#[derive(Debug)]
pub struct ReportService {
    llm_service: LLMService,
}

impl View for ReportService {
    type V = LLMProviderView;

    closed spec fn view(&self) -> LLMProviderView {
        self.llm_service@
    }
}

impl ReportService {
    /// A report service that generates with `llm_service`.
    pub fn new(llm_service: LLMService) -> (service: Self)
        ensures
            service@ == llm_service@,
    {
        ReportService { llm_service }
    }

    /// The service that prompts are to be sent with.
    pub fn llm_service(&self) -> (llm_service: &LLMService)
        ensures
            llm_service@ == self@,
    {
        &self.llm_service
    }

    /// Begins the generation of a weekly report over `repo_groups`, with
    /// the template `template_id` or the default weekly template.
    pub fn generate_weekly(&self, repo_groups: Vec<RepoGroup>, template_id: Option<String>) -> (begun:
        (Generation, Action))
        ensures
            exists|week: (int, int)|
                Generation::begins(
                    ReportType::Weekly,
                    repo_groups@,
                    template_id,
                    week,
                    begun.0,
                    begun.1,
                ),
    {
        Generation::start(ReportType::Weekly, repo_groups, template_id)
    }

    /// Begins the generation of a monthly report over `repo_groups`, with
    /// the template `template_id` or the default monthly template.
    pub fn generate_monthly(&self, repo_groups: Vec<RepoGroup>, template_id: Option<String>) -> (begun:
        (Generation, Action))
        ensures
            exists|week: (int, int)|
                Generation::begins(
                    ReportType::Monthly,
                    repo_groups@,
                    template_id,
                    week,
                    begun.0,
                    begun.1,
                ),
    {
        Generation::start(ReportType::Monthly, repo_groups, template_id)
    }

    /// Counts the distinct authors of `commits`. The number of changed
    /// files is not computed and is reported as zero.
    pub fn calculate_stats(&self, commits: &Vec<Commit>) -> (stats: ReportStats)
        ensures
            stats.unique_authors == unique_author_count(commits@),
            stats.unique_authors <= commits@.len(),
            stats.files_changed == 0,
    {
        CommitAggregator::stats(commits)
    }

    /// Groups `commits` by ISO year and ISO week, the buckets in ascending
    /// order of their earliest timestamp. A commit without a valid timestamp
    /// falls in the week of the call.
    pub fn group_commits_by_week(&self, commits: &Vec<Commit>) -> (weeks: Vec<Vec<Commit>>)
        ensures
            exists|current: (int, int)| grouped_by_week(commits@, current, bucket_seqs(weeks@)),
    {
        CommitAggregator::group_by_iso_week(commits)
    }
}

} // verus!
