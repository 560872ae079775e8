//! The data a prompt template is rendered with, and the rendering.

use crate::error::TemplateError;
use crate::models::commit::Commit;
use crate::models::report::{RepoGroup, ReportType};
use crate::services::aggregator::{
    bucket_seqs, earliest, key_ints, latest, lemma_bucket_count, merged, unique_author_count,
    week_count, CommitAggregator,
};
use crate::services::calendar::{format_utc, utc_text, DATE_PATTERN};
use crate::services::template_data::{
    count_value, json_count, json_list, json_record, json_text, list_value, record_value,
    render_error_text, render_with_handlebars, rendered, text_value, texts,
};
use crate::services::template_text::{calls_partial, has_partial_call};
use crate::services::text::{join3, leading, prefix};
use vstd::prelude::*;

verus! {

/// How many characters of a commit's hash a prompt shows.
pub const SHORT_HASH_LEN: usize = 7;

/// What a template sees of one commit.
#[derive(Debug, PartialEq, Eq)]
pub struct CommitEntry {
    /// The first characters of the hash.
    pub hash: String,
    pub message: String,
    pub author: String,
    /// The commit's day, as text.
    pub timestamp: String,
}

/// Mathematical model of a [`CommitEntry`].
pub ghost struct CommitEntryView {
    pub hash: Seq<char>,
    pub message: Seq<char>,
    pub author: Seq<char>,
    pub timestamp: Seq<char>,
}

impl View for CommitEntry {
    type V = CommitEntryView;

    open spec fn view(&self) -> CommitEntryView {
        CommitEntryView {
            hash: self.hash@,
            message: self.message@,
            author: self.author@,
            timestamp: self.timestamp@,
        }
    }
}

/// What a template sees of one repository group.
#[derive(Debug, PartialEq, Eq)]
pub struct GroupEntry {
    pub repo_name: String,
    pub commit_count: usize,
    pub commits: Vec<CommitEntry>,
}

/// Mathematical model of a [`GroupEntry`].
pub ghost struct GroupEntryView {
    pub repo_name: Seq<char>,
    pub commit_count: nat,
    pub commits: Seq<CommitEntryView>,
}

impl View for GroupEntry {
    type V = GroupEntryView;

    open spec fn view(&self) -> GroupEntryView {
        GroupEntryView {
            repo_name: self.repo_name@,
            commit_count: self.commit_count as nat,
            commits: self.commits@.map_values(|e: CommitEntry| e@),
        }
    }
}

/// Everything a prompt template can refer to.
#[derive(Debug, PartialEq, Eq)]
pub struct PromptContext {
    pub repo_groups: Vec<GroupEntry>,
    pub total_repos: usize,
    pub total_commits: usize,
    pub date_range: String,
    pub unique_authors: usize,
    pub files_changed: usize,
    /// The number of calendar weeks the commits fall in; monthly reports
    /// only.
    pub weeks_count: Option<usize>,
}

/// Mathematical model of a [`PromptContext`].
pub ghost struct PromptContextView {
    pub repo_groups: Seq<GroupEntryView>,
    pub total_repos: nat,
    pub total_commits: nat,
    pub date_range: Seq<char>,
    pub unique_authors: nat,
    pub files_changed: nat,
    pub weeks_count: Option<nat>,
}

impl View for PromptContext {
    type V = PromptContextView;

    open spec fn view(&self) -> PromptContextView {
        PromptContextView {
            repo_groups: self.repo_groups@.map_values(|g: GroupEntry| g@),
            total_repos: self.total_repos as nat,
            total_commits: self.total_commits as nat,
            date_range: self.date_range@,
            unique_authors: self.unique_authors as nat,
            files_changed: self.files_changed as nat,
            weeks_count: match self.weeks_count {
                Some(w) => Some(w as nat),
                None => None,
            },
        }
    }
}

/// The day of a timestamp as `YYYY-MM-DD`, or a fixed text where the
/// calendar cannot represent the timestamp.
pub open spec fn date_text(timestamp: int) -> Seq<char> {
    match utc_text(timestamp, DATE_PATTERN@) {
        Some(text) => text,
        None => "Unknown date"@,
    }
}

/// What a template sees of `commit`.
pub open spec fn entry_of(commit: Commit) -> CommitEntryView {
    CommitEntryView {
        hash: prefix(commit.hash@, SHORT_HASH_LEN as nat),
        message: commit.message@,
        author: commit.author@,
        timestamp: date_text(commit.timestamp as int),
    }
}

/// What a template sees of `group`.
pub open spec fn group_entry_of(group: RepoGroup) -> GroupEntryView {
    GroupEntryView {
        repo_name: group.repo_name@,
        commit_count: group.commits@.len(),
        commits: group.commits@.map_values(|c: Commit| entry_of(c)),
    }
}

/// What stands between the two days of a date range.
pub const DATE_RANGE_SEPARATOR: &'static str = " – ";

/// The first and the last day of the commits, with a dash between them.
pub open spec fn date_range_text(commits: Seq<Commit>) -> Seq<char> {
    date_text(earliest(commits)) + DATE_RANGE_SEPARATOR@ + date_text(latest(commits))
}

/// The context of a report of kind `report_type` over `groups`. Commits
/// that the calendar cannot place fall in the week `fallback`.
pub open spec fn context_of(
    report_type: ReportType,
    groups: Seq<RepoGroup>,
    fallback: (int, int),
) -> PromptContextView {
    let commits = merged(groups);
    PromptContextView {
        repo_groups: groups.map_values(|g: RepoGroup| group_entry_of(g)),
        total_repos: groups.len(),
        total_commits: commits.len(),
        date_range: date_range_text(commits),
        unique_authors: unique_author_count(commits),
        files_changed: 0,
        weeks_count: if report_type == ReportType::Monthly {
            Some(week_count(commits, fallback))
        } else {
            None
        },
    }
}

/// The template data of one commit. The shortened hash can be referred to
/// as `hash` and as `short_hash`.
pub open spec fn entry_json(entry: CommitEntryView) -> serde_json::Value {
    json_record(
        seq!["hash"@, "short_hash"@, "message"@, "author"@, "timestamp"@],
        seq![
            json_text(entry.hash),
            json_text(entry.hash),
            json_text(entry.message),
            json_text(entry.author),
            json_text(entry.timestamp),
        ],
    )
}

/// The template data of one repository group. The repository's name can
/// be referred to as `repo_name` and as `name`.
pub open spec fn group_json(group: GroupEntryView) -> serde_json::Value {
    json_record(
        seq!["repo_name"@, "name"@, "commit_count"@, "commits"@],
        seq![
            json_text(group.repo_name),
            json_text(group.repo_name),
            json_count(group.commit_count),
            json_list(group.commits.map_values(|e: CommitEntryView| entry_json(e))),
        ],
    )
}

/// The names every context holds, in the order they are inserted.
pub open spec fn context_names() -> Seq<Seq<char>> {
    seq![
        "repo_groups"@,
        "total_repos"@,
        "total_commits"@,
        "date_range"@,
        "unique_authors"@,
        "files_changed"@,
    ]
}

/// The values of [`context_names`], in the same order.
pub open spec fn context_values(context: PromptContextView) -> Seq<serde_json::Value> {
    seq![
        json_list(context.repo_groups.map_values(|g: GroupEntryView| group_json(g))),
        json_count(context.total_repos),
        json_count(context.total_commits),
        json_text(context.date_range),
        json_count(context.unique_authors),
        json_count(context.files_changed),
    ]
}

/// The template data of a whole context. The number of weeks is present
/// only where the context holds one.
pub open spec fn context_json(context: PromptContextView) -> serde_json::Value {
    match context.weeks_count {
        Some(weeks) => json_record(
            context_names().push("weeks_count"@),
            context_values(context).push(json_count(weeks)),
        ),
        None => json_record(context_names(), context_values(context)),
    }
}

/// What is said of a template that calls a partial or a decorator.
pub const PARTIALS_REFUSED: &'static str = "partials and decorators are not supported";

/// The prompt that `template` gives for `context`; `None` where the
/// template cannot be rendered. A template that calls a partial or a
/// decorator is never rendered.
pub open spec fn prompt_of(template: Seq<char>, context: PromptContextView) -> Option<Seq<char>> {
    if calls_partial(template) {
        None
    } else {
        rendered(template, context_json(context))
    }
}

/// The day of a timestamp as `YYYY-MM-DD`.
pub fn format_timestamp(timestamp: i64) -> (text: String)
    ensures
        text@ == date_text(timestamp as int),
{
    match format_utc(timestamp, DATE_PATTERN) {
        Some(text) => text,
        None => String::from_str("Unknown date"),
    }
}

fn push_name(names: &mut Vec<String>, name: &str)
    ensures
        texts(final(names)@) == texts(old(names)@).push(name@),
{
    names.push(String::from_str(name));
    assert(texts(names@) =~= texts(old(names)@).push(name@));
}

impl CommitEntry {
    /// What a template sees of `commit`.
    pub fn new(commit: &Commit) -> (entry: Self)
        ensures
            entry@ == entry_of(*commit),
    {
        CommitEntry {
            hash: leading(commit.hash.as_str(), SHORT_HASH_LEN),
            message: commit.message.clone(),
            author: commit.author.clone(),
            timestamp: format_timestamp(commit.timestamp),
        }
    }

    /// The entry as template data.
    pub fn to_json(&self) -> (value: serde_json::Value)
        ensures
            value == entry_json(self@),
    {
        let mut names: Vec<String> = Vec::new();
        push_name(&mut names, "hash");
        push_name(&mut names, "short_hash");
        push_name(&mut names, "message");
        push_name(&mut names, "author");
        push_name(&mut names, "timestamp");
        let mut values: Vec<serde_json::Value> = Vec::new();
        values.push(text_value(self.hash.as_str()));
        values.push(text_value(self.hash.as_str()));
        values.push(text_value(self.message.as_str()));
        values.push(text_value(self.author.as_str()));
        values.push(text_value(self.timestamp.as_str()));
        proof {
            assert(texts(names@) =~= seq![
                "hash"@,
                "short_hash"@,
                "message"@,
                "author"@,
                "timestamp"@,
            ]);
            assert(values@ =~= seq![
                json_text(self@.hash),
                json_text(self@.hash),
                json_text(self@.message),
                json_text(self@.author),
                json_text(self@.timestamp),
            ]);
        }
        record_value(names, values)
    }
}

impl GroupEntry {
    /// What a template sees of `group`.
    pub fn new(group: &RepoGroup) -> (entry: Self)
        ensures
            entry@ == group_entry_of(*group),
    {
        let mut commits: Vec<CommitEntry> = Vec::new();
        let mut i: usize = 0;
        while i < group.commits.len()
            invariant
                i <= group.commits.len(),
                commits@.map_values(|e: CommitEntry| e@) == group.commits@.take(i as int).map_values(
                    |c: Commit| entry_of(c),
                ),
            decreases group.commits.len() - i,
        {
            let ghost before = commits@;
            commits.push(CommitEntry::new(&group.commits[i]));
            proof {
                assert(group.commits@.take(i + 1) == group.commits@.take(i as int).push(
                    group.commits@[i as int],
                ));
                assert(commits@.map_values(|e: CommitEntry| e@) =~= before.map_values(
                    |e: CommitEntry| e@,
                ).push(entry_of(group.commits@[i as int])));
                assert(group.commits@.take(i + 1).map_values(|c: Commit| entry_of(c))
                    =~= group.commits@.take(i as int).map_values(|c: Commit| entry_of(c)).push(
                    entry_of(group.commits@[i as int]),
                ));
            }
            i += 1;
        }
        assert(group.commits@.take(i as int) == group.commits@);
        GroupEntry {
            repo_name: group.repo_name.clone(),
            commit_count: group.commits.len(),
            commits,
        }
    }

    /// The entry as template data.
    pub fn to_json(&self) -> (value: serde_json::Value)
        ensures
            value == group_json(self@),
    {
        let mut items: Vec<serde_json::Value> = Vec::new();
        let mut i: usize = 0;
        while i < self.commits.len()
            invariant
                i <= self.commits.len(),
                items@ == self@.commits.take(i as int).map_values(|e: CommitEntryView| entry_json(e)),
            decreases self.commits.len() - i,
        {
            let ghost before = items@;
            items.push(self.commits[i].to_json());
            proof {
                assert(self@.commits[i as int] == self.commits@[i as int]@);
                assert(self@.commits.take(i + 1) == self@.commits.take(i as int).push(
                    self@.commits[i as int],
                ));
                assert(items@ =~= self@.commits.take(i + 1).map_values(
                    |e: CommitEntryView| entry_json(e),
                ));
            }
            i += 1;
        }
        assert(self@.commits.take(i as int) == self@.commits);
        let mut names: Vec<String> = Vec::new();
        push_name(&mut names, "repo_name");
        push_name(&mut names, "name");
        push_name(&mut names, "commit_count");
        push_name(&mut names, "commits");
        let mut values: Vec<serde_json::Value> = Vec::new();
        values.push(text_value(self.repo_name.as_str()));
        values.push(text_value(self.repo_name.as_str()));
        values.push(count_value(self.commit_count));
        values.push(list_value(items));
        proof {
            assert(texts(names@) =~= seq!["repo_name"@, "name"@, "commit_count"@, "commits"@]);
            assert(values@ =~= seq![
                json_text(self@.repo_name),
                json_text(self@.repo_name),
                json_count(self@.commit_count),
                json_list(self@.commits.map_values(|e: CommitEntryView| entry_json(e))),
            ]);
        }
        record_value(names, values)
    }
}

impl PromptContext {
    /// The context of a report of kind `report_type` over `groups`. Commits
    /// that the calendar cannot place fall in the week `fallback`.
    pub fn build(report_type: ReportType, groups: &Vec<RepoGroup>, fallback: (i32, u32)) -> (context:
        Self)
        ensures
            context@ == context_of(report_type, groups@, key_ints(fallback)),
    {
        let commits = CommitAggregator::concat(groups);
        let stats = CommitAggregator::stats(&commits);
        let mut entries: Vec<GroupEntry> = Vec::new();
        let mut i: usize = 0;
        while i < groups.len()
            invariant
                i <= groups.len(),
                entries@.map_values(|g: GroupEntry| g@) == groups@.take(i as int).map_values(
                    |g: RepoGroup| group_entry_of(g),
                ),
            decreases groups.len() - i,
        {
            let ghost before = entries@;
            entries.push(GroupEntry::new(&groups[i]));
            proof {
                assert(groups@.take(i + 1) == groups@.take(i as int).push(groups@[i as int]));
                assert(entries@.map_values(|g: GroupEntry| g@) =~= before.map_values(
                    |g: GroupEntry| g@,
                ).push(group_entry_of(groups@[i as int])));
                assert(groups@.take(i + 1).map_values(|g: RepoGroup| group_entry_of(g))
                    =~= groups@.take(i as int).map_values(|g: RepoGroup| group_entry_of(g)).push(
                    group_entry_of(groups@[i as int]),
                ));
            }
            i += 1;
        }
        assert(groups@.take(i as int) == groups@);
        let first = format_timestamp(CommitAggregator::window_start(&commits));
        let last = format_timestamp(CommitAggregator::window_end(&commits));
        let date_range = join3(first.as_str(), DATE_RANGE_SEPARATOR, last.as_str());
        let weeks_count = match report_type {
            ReportType::Monthly => {
                let weeks = CommitAggregator::group_by_week_at(&commits, fallback);
                proof {
                    lemma_bucket_count(commits@, key_ints(fallback), bucket_seqs(weeks@));
                }
                Some(weeks.len())
            },
            _ => None,
        };
        PromptContext {
            repo_groups: entries,
            total_repos: groups.len(),
            total_commits: commits.len(),
            date_range,
            unique_authors: stats.unique_authors,
            files_changed: stats.files_changed,
            weeks_count,
        }
    }

    /// The context as template data.
    pub fn to_json(&self) -> (value: serde_json::Value)
        ensures
            value == context_json(self@),
    {
        let mut items: Vec<serde_json::Value> = Vec::new();
        let mut i: usize = 0;
        while i < self.repo_groups.len()
            invariant
                i <= self.repo_groups.len(),
                items@ == self@.repo_groups.take(i as int).map_values(
                    |g: GroupEntryView| group_json(g),
                ),
            decreases self.repo_groups.len() - i,
        {
            items.push(self.repo_groups[i].to_json());
            proof {
                assert(self@.repo_groups[i as int] == self.repo_groups@[i as int]@);
                assert(self@.repo_groups.take(i + 1) == self@.repo_groups.take(i as int).push(
                    self@.repo_groups[i as int],
                ));
                assert(items@ =~= self@.repo_groups.take(i + 1).map_values(
                    |g: GroupEntryView| group_json(g),
                ));
            }
            i += 1;
        }
        assert(self@.repo_groups.take(i as int) == self@.repo_groups);
        let mut names: Vec<String> = Vec::new();
        push_name(&mut names, "repo_groups");
        push_name(&mut names, "total_repos");
        push_name(&mut names, "total_commits");
        push_name(&mut names, "date_range");
        push_name(&mut names, "unique_authors");
        push_name(&mut names, "files_changed");
        let mut values: Vec<serde_json::Value> = Vec::new();
        values.push(list_value(items));
        values.push(count_value(self.total_repos));
        values.push(count_value(self.total_commits));
        values.push(text_value(self.date_range.as_str()));
        values.push(count_value(self.unique_authors));
        values.push(count_value(self.files_changed));
        proof {
            assert(texts(names@) =~= context_names());
            assert(values@ =~= context_values(self@));
        }
        match self.weeks_count {
            Some(weeks) => {
                push_name(&mut names, "weeks_count");
                values.push(count_value(weeks));
            },
            None => {},
        }
        record_value(names, values)
    }

    /// Renders `template` with this context. A template that calls a
    /// partial or a decorator is refused before the template engine sees
    /// it. Whether any other template can be rendered is for the template
    /// engine to say; it refuses a template that is malformed or refers to
    /// a value the context does not hold.
    pub fn render(&self, template: &str) -> (outcome: Result<String, TemplateError>)
        ensures
            match outcome {
                Ok(prompt) => prompt_of(template@, self@) == Some(prompt@),
                Err(e) => prompt_of(template@, self@) is None && e is Render,
            },
            calls_partial(template@) ==> (outcome matches Err(TemplateError::Render { message })
                && message@ == PARTIALS_REFUSED@),
    {
        if has_partial_call(template) {
            return Err(TemplateError::Render { message: String::from_str(PARTIALS_REFUSED) });
        }
        let data = self.to_json();
        match render_with_handlebars(template, &data) {
            Ok(prompt) => Ok(prompt),
            Err(error) => Err(TemplateError::Render { message: render_error_text(&error) }),
        }
    }
}

} // verus!
