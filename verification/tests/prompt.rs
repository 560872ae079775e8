use gitlog_ai_reporter::error::TemplateError;
use gitlog_ai_reporter::models::{Commit, RepoGroup, ReportType};
use gitlog_ai_reporter::services::prompt::{format_timestamp, PARTIALS_REFUSED};
use gitlog_ai_reporter::services::template_text::has_partial_call;
use gitlog_ai_reporter::services::{CommitEntry, GroupEntry, PromptContext};

const JAN_1_2024: i64 = 1_704_067_200;
const DAY: i64 = 86_400;

fn commit_with(hash: &str, author: &str, timestamp: i64, message: &str) -> Commit {
    Commit {
        hash: hash.to_string(),
        author: author.to_string(),
        email: format!("{}@example.com", author),
        timestamp,
        message: message.to_string(),
        diff: None,
    }
}

fn repo(name: &str, commits: Vec<Commit>) -> RepoGroup {
    RepoGroup {
        repo_id: format!("id-{}", name),
        repo_name: name.to_string(),
        repo_path: format!("/repos/{}", name),
        commits,
    }
}

fn sample_groups() -> Vec<RepoGroup> {
    vec![
        repo(
            "api",
            vec![
                commit_with("0123456789abcdef", "ann", JAN_1_2024 + 9 * DAY, "add login"),
                commit_with("abc", "bob", JAN_1_2024 + 2 * DAY, "fix typo"),
            ],
        ),
        repo("web", vec![commit_with("fedcba9876543210", "ann", JAN_1_2024, "initial")]),
    ]
}

#[test]
fn timestamps_are_shown_as_days() {
    assert_eq!(format_timestamp(0), "1970-01-01");
    assert_eq!(format_timestamp(JAN_1_2024), "2024-01-01");
    assert_eq!(format_timestamp(JAN_1_2024 - 1), "2023-12-31");
    assert_eq!(format_timestamp(-1), "1969-12-31");
}

#[test]
fn a_timestamp_out_of_range_has_no_day() {
    assert_eq!(format_timestamp(i64::MAX), "Unknown date");
    assert_eq!(format_timestamp(i64::MIN), "Unknown date");
}

#[test]
fn entry_shows_seven_characters_of_the_hash() {
    let entry = CommitEntry::new(&commit_with("0123456789abcdef", "ann", JAN_1_2024, "add login"));
    assert_eq!(entry.hash, "0123456");
    assert_eq!(entry.message, "add login");
    assert_eq!(entry.author, "ann");
    assert_eq!(entry.timestamp, "2024-01-01");
}

#[test]
fn a_short_hash_is_shown_whole() {
    assert_eq!(CommitEntry::new(&commit_with("abc", "a", 0, "m")).hash, "abc");
    assert_eq!(CommitEntry::new(&commit_with("", "a", 0, "m")).hash, "");
    assert_eq!(CommitEntry::new(&commit_with("1234567", "a", 0, "m")).hash, "1234567");
    assert_eq!(CommitEntry::new(&commit_with("12345678", "a", 0, "m")).hash, "1234567");
}

#[test]
fn a_hash_is_cut_by_characters() {
    assert_eq!(CommitEntry::new(&commit_with("ééééééééé", "a", 0, "m")).hash, "ééééééé");
}

#[test]
fn group_entry_counts_its_commits() {
    let groups = sample_groups();
    let entry = GroupEntry::new(&groups[0]);
    assert_eq!(entry.repo_name, "api");
    assert_eq!(entry.commit_count, 2);
    assert_eq!(entry.commits.len(), 2);
    assert_eq!(entry.commits[1].hash, "abc");
    assert_eq!(entry.commits[1].timestamp, "2024-01-03");
}

#[test]
fn weekly_context_has_no_number_of_weeks() {
    let context = PromptContext::build(ReportType::Weekly, &sample_groups(), (2024, 1));
    assert_eq!(context.total_repos, 2);
    assert_eq!(context.total_commits, 3);
    assert_eq!(context.date_range, "2024-01-01 – 2024-01-10");
    assert_eq!(context.unique_authors, 2);
    assert_eq!(context.files_changed, 0);
    assert_eq!(context.weeks_count, None);
    assert_eq!(context.repo_groups.len(), 2);
    assert_eq!(context.repo_groups[1].repo_name, "web");
}

#[test]
fn monthly_context_counts_the_weeks() {
    let context = PromptContext::build(ReportType::Monthly, &sample_groups(), (2024, 1));
    assert_eq!(context.weeks_count, Some(2));
    let one_week = vec![repo("web", vec![commit_with("f", "ann", JAN_1_2024, "initial")])];
    let context = PromptContext::build(ReportType::Monthly, &one_week, (2024, 1));
    assert_eq!(context.weeks_count, Some(1));
    assert_eq!(context.date_range, "2024-01-01 – 2024-01-01");
}

#[test]
fn context_of_no_commits() {
    let context = PromptContext::build(ReportType::Monthly, &vec![repo("web", vec![])], (2024, 1));
    assert_eq!(context.total_repos, 1);
    assert_eq!(context.total_commits, 0);
    assert_eq!(context.unique_authors, 0);
    assert_eq!(context.weeks_count, Some(0));
    assert_eq!(context.date_range, "1970-01-01 – 1970-01-01");
}

#[test]
fn template_sees_every_field_of_the_context() {
    let context = PromptContext::build(ReportType::Monthly, &sample_groups(), (2024, 1));
    let template = "{{total_repos}} repos, {{total_commits}} commits, {{unique_authors}} authors, \
                    {{files_changed}} files, {{weeks_count}} weeks, {{date_range}}\n\
                    {{#each repo_groups}}{{repo_name}} ({{commit_count}}):\
                    {{#each commits}} [{{hash}} {{author}} {{timestamp}} {{message}}]{{/each}}\n\
                    {{/each}}";
    let prompt = context.render(template).unwrap();
    assert_eq!(
        prompt,
        "2 repos, 3 commits, 2 authors, 0 files, 2 weeks, 2024-01-01 – 2024-01-10\n\
         api (2): [0123456 ann 2024-01-10 add login] [abc bob 2024-01-03 fix typo]\n\
         web (1): [fedcba9 ann 2024-01-01 initial]\n"
    );
}

#[test]
fn name_and_hash_answer_to_two_names() {
    let context = PromptContext::build(ReportType::Weekly, &sample_groups(), (2024, 1));
    let template = "{{#each repo_groups}}{{name}}={{repo_name}}:{{#each commits}}{{short_hash}}={{hash}};{{/each}} {{/each}}";
    assert_eq!(
        context.render(template).unwrap(),
        "api=api:0123456=0123456;abc=abc; web=web:fedcba9=fedcba9; "
    );
}

#[test]
fn text_in_a_prompt_is_escaped_for_html() {
    let groups = vec![repo("a&b", vec![commit_with("1", "x", 0, "if a < b")])];
    let context = PromptContext::build(ReportType::Weekly, &groups, (2024, 1));
    assert_eq!(
        context.render("{{#each repo_groups}}{{name}}{{#each commits}} {{message}}|{{{message}}}{{/each}}{{/each}}").unwrap(),
        "a&amp;b if a &lt; b|if a < b"
    );
}

#[test]
fn weekly_context_holds_no_number_of_weeks() {
    let weekly = PromptContext::build(ReportType::Weekly, &sample_groups(), (2024, 1));
    assert!(matches!(weekly.render("[{{weeks_count}}]"), Err(TemplateError::Render { .. })));
    assert_eq!(
        weekly.render("{{#if weeks_count}}monthly{{else}}weekly{{/if}}").unwrap(),
        "weekly"
    );
    let monthly = PromptContext::build(ReportType::Monthly, &sample_groups(), (2024, 1));
    assert_eq!(monthly.render("[{{weeks_count}}]").unwrap(), "[2]");
    assert_eq!(
        monthly.render("{{#if weeks_count}}monthly{{else}}weekly{{/if}}").unwrap(),
        "monthly"
    );
}

#[test]
fn reference_to_what_the_context_does_not_hold_is_a_render_error() {
    let context = PromptContext::build(ReportType::Monthly, &sample_groups(), (2024, 1));
    for template in [
        "{{insertions}}",
        "{{total_commit}}",
        "{{#each repo_groups}}{{branch}}{{/each}}",
        "{{#each repo_groups}}{{#each commits}}{{email}}{{/each}}{{/each}}",
    ] {
        let error = context.render(template).unwrap_err();
        assert!(matches!(error, TemplateError::Render { .. }));
    }
}

#[test]
fn template_without_fields_is_returned_as_it_is() {
    let context = PromptContext::build(ReportType::Weekly, &sample_groups(), (2024, 1));
    assert_eq!(context.render("Summarise the week.").unwrap(), "Summarise the week.");
    assert_eq!(context.render("").unwrap(), "");
}

#[test]
fn broken_template_is_a_render_error() {
    let context = PromptContext::build(ReportType::Weekly, &sample_groups(), (2024, 1));
    let error = context.render("{{#each repo_groups}}never closed").unwrap_err();
    assert!(matches!(error, TemplateError::Render { .. }));
    assert!(error.message().starts_with("Template rendering error: "));
    assert!(error.message().len() > "Template rendering error: ".len());
}

#[test]
fn partial_and_decorator_calls_are_found() {
    for template in [
        "{{> a}}",
        "{{>a}}",
        "{{~> a}}",
        "{{ > a}}",
        "{{\t\n\r > a}}",
        "{{#> layout}}body{{/layout}}",
        "{{# > layout}}body{{/layout}}",
        "{{* decorate}}",
        "{{#*inline \"a\"}}x{{/inline}}",
        "{{~#* inline \"a\"}}x{{/inline}}",
        "text before {{total_commits}} and {{> late}}",
        "{{{> a}}}",
        "{{#*inline \"a\"}}{{> a}}{{/inline}}{{> a}}",
    ] {
        assert!(has_partial_call(template), "{}", template);
    }
}

#[test]
fn other_templates_call_no_partial() {
    for template in [
        "",
        "plain text with > and * and { braces }",
        "{{total_commits}}",
        "{{#each repo_groups}}{{name}}{{/each}}",
        "{{#if weeks_count}}a{{else}}b{{/if}}",
        "{{{message}}}",
        "{{&message}}",
        "{{! a comment}}",
        "{{x > y}}",
        "{{a}} > {{b}}",
        "{ {> a}}",
        "{{~#if x}}>{{/if}}",
        "{{",
        "{{ #",
    ] {
        assert!(!has_partial_call(template), "{}", template);
    }
}

#[test]
fn template_that_calls_a_partial_is_refused() {
    let context = PromptContext::build(ReportType::Weekly, &sample_groups(), (2024, 1));
    for template in [
        "{{> header}}{{total_commits}}",
        "{{#*inline \"a\"}}{{total_commits}}{{/inline}}{{> a}}",
        "{{#*inline \"a\"}}{{> a}}{{/inline}}{{> a}}",
        "{{#> layout}}{{total_commits}}{{/layout}}",
        "{{* decorate}}",
    ] {
        assert_eq!(
            context.render(template),
            Err(TemplateError::Render { message: PARTIALS_REFUSED.to_string() })
        );
    }
    assert_eq!(
        TemplateError::Render { message: PARTIALS_REFUSED.to_string() }.message(),
        "Template rendering error: partials and decorators are not supported"
    );
}

#[test]
fn template_errors_describe_themselves() {
    let missing = TemplateError::NotFound { message: "no template 'x'".to_string() };
    assert_eq!(missing.message(), "Template not found: no template 'x'");
    let broken = TemplateError::Render { message: "bad".to_string() };
    assert_eq!(broken.message(), "Template rendering error: bad");
}
