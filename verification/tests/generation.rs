use gitlog_ai_reporter::error::{InputError, ProviderError, ReportError, TemplateError};
use gitlog_ai_reporter::models::{Commit, LLMProvider, RepoGroup, Report, ReportType};
use gitlog_ai_reporter::services::{Action, Event, Generation, LLMService, Phase, ReportService};

const JAN_1_2024: i64 = 1_704_067_200;
const DAY: i64 = 86_400;

fn change(index: usize, author: &str, timestamp: i64) -> Commit {
    Commit {
        hash: format!("{:040x}", index),
        author: author.to_string(),
        email: format!("{}@example.com", author),
        timestamp,
        message: format!("change {}", index),
        diff: None,
    }
}

fn repo_group(name: &str, commits: Vec<Commit>) -> RepoGroup {
    RepoGroup {
        repo_id: format!("id-{}", name),
        repo_name: name.to_string(),
        repo_path: format!("/repos/{}", name),
        commits,
    }
}

fn many(count: usize) -> Vec<Commit> {
    (0..count).map(|i| change(i, "a", JAN_1_2024 - i as i64)).collect()
}

fn service() -> ReportService {
    ReportService::new(LLMService::new(LLMProvider::OpenAI {
        api_key: "sk-test".to_string(),
        base_url: "https://api.openai.com/v1".to_string(),
    }))
}

fn found(template: &str) -> Event {
    Event::TemplateFound { content: template.to_string() }
}

fn delta(text: &str) -> Event {
    Event::Delta { text: text.to_string() }
}

fn finish(generation: &mut Generation, deltas: &[&str]) -> Report {
    for text in deltas {
        assert_eq!(generation.step(delta(text)), Action::Relay { text: text.to_string() });
    }
    match generation.step(Event::StreamEnded) {
        Action::Finish { report } => report,
        other => panic!("no report: {:?}", other),
    }
}

fn now() -> i64 {
    std::time::SystemTime::now()
        .duration_since(std::time::UNIX_EPOCH)
        .unwrap()
        .as_secs() as i64
}

#[test]
fn weekly_report_end_to_end() {
    let commits = vec![
        change(0, "ann", JAN_1_2024 + 10 * DAY),
        change(1, "bob", JAN_1_2024 + 7 * DAY),
        change(2, "ann", JAN_1_2024 + 5 * DAY),
        change(3, "ann", JAN_1_2024 + 2 * DAY),
        change(4, "bob", JAN_1_2024),
    ];
    let before = now();
    let (mut generation, action) =
        service().generate_weekly(vec![repo_group("X", commits.clone())], None);
    assert_eq!(action, Action::FetchDefaultTemplate { report_type: ReportType::Weekly });
    assert_eq!(generation.current_phase(), Phase::AwaitingTemplate);
    assert_eq!(generation.commit_count(), 5);

    let action = generation.step(found(
        "{{#each repo_groups}}{{repo_name}}{{/each}}: {{total_commits}} commits by \
         {{unique_authors}} authors, {{date_range}}",
    ));
    assert_eq!(
        action,
        Action::SendPrompt {
            prompt: "X: 5 commits by 2 authors, 2024-01-01 – 2024-01-11".to_string()
        }
    );
    assert_eq!(generation.current_phase(), Phase::Streaming);

    let report = finish(&mut generation, &["This week ", "two people ", "made five changes."]);
    let after = now();
    assert_eq!(generation.current_phase(), Phase::Closed);
    assert_eq!(report.commits.len(), 5);
    assert_eq!(report.commits, commits);
    assert_eq!(report.content, "This week two people made five changes.");
    assert!(!report.content.is_empty());
    assert_eq!(report.report_type, ReportType::Weekly);
    assert_eq!(report.id.len(), 36);
    let id = uuid::Uuid::parse_str(&report.id).unwrap();
    assert_eq!(id.get_version_num(), 4);
    assert!(before - 5 <= report.generated_at && report.generated_at <= after + 5);
}

#[test]
fn report_is_given_the_time_and_the_identifier_of_the_step() {
    let commits = many(3);
    let (mut generation, _) =
        service().generate_weekly(vec![repo_group("X", commits.clone())], None);
    let unused = "unused".to_string();
    assert_eq!(
        generation.step_at(found("prompt"), 1, unused.clone()),
        Action::SendPrompt { prompt: "prompt".to_string() }
    );
    assert_eq!(
        generation.step_at(delta("text"), 2, unused),
        Action::Relay { text: "text".to_string() }
    );
    let id = "7b0c2c4e-58cf-4a55-9d5c-0b0f3e1d2a11".to_string();
    let action = generation.step_at(Event::StreamEnded, 1_704_067_200, id.clone());
    assert_eq!(
        action,
        Action::Finish {
            report: Report {
                id,
                report_type: ReportType::Weekly,
                generated_at: 1_704_067_200,
                content: "text".to_string(),
                commits,
            }
        }
    );
}

#[test]
fn report_is_timed_in_seconds_when_the_stream_ends() {
    let (mut generation, _) = service().generate_weekly(vec![repo_group("X", many(1))], None);
    generation.step(found("prompt"));
    generation.step(delta("text"));
    let before = now();
    let report = finish(&mut generation, &[]);
    let after = now();
    assert!(before <= report.generated_at && report.generated_at <= after);
}

#[test]
fn reports_and_groups_can_be_copied() {
    let group = repo_group("X", many(2));
    assert_eq!(group.clone(), group);
    let (mut generation, _) = service().generate_weekly(vec![group], None);
    generation.step(found("prompt"));
    let report = finish(&mut generation, &["text"]);
    assert_eq!(report.clone(), report);
}

#[test]
fn every_report_has_an_id_of_its_own() {
    let mut ids = Vec::new();
    for _ in 0..3 {
        let (mut generation, _) =
            service().generate_weekly(vec![repo_group("X", many(2))], None);
        generation.step(found("prompt"));
        ids.push(finish(&mut generation, &["text"]).id);
    }
    assert_ne!(ids[0], ids[1]);
    assert_ne!(ids[0], ids[2]);
    assert_ne!(ids[1], ids[2]);
}

#[test]
fn monthly_report_with_a_named_template() {
    let (mut generation, action) = service().generate_monthly(
        vec![repo_group("X", vec![change(0, "a", JAN_1_2024 + 7 * DAY), change(1, "a", JAN_1_2024)])],
        Some("team-monthly".to_string()),
    );
    assert_eq!(action, Action::FetchTemplate { id: "team-monthly".to_string() });
    let action = generation.step(found("{{weeks_count}} weeks"));
    assert_eq!(action, Action::SendPrompt { prompt: "2 weeks".to_string() });
    let report = finish(&mut generation, &["ok"]);
    assert_eq!(report.report_type, ReportType::Monthly);
    assert_eq!(report.content, "ok");
}

#[test]
fn weekly_report_holds_the_first_fifty_commits() {
    let commits = many(60);
    let (mut generation, _) =
        service().generate_weekly(vec![repo_group("X", commits.clone())], None);
    assert_eq!(generation.commit_count(), 50);
    let action = generation.step(found("{{total_commits}}"));
    assert_eq!(action, Action::SendPrompt { prompt: "50".to_string() });
    let report = finish(&mut generation, &["text"]);
    assert_eq!(report.commits.len(), 50);
    assert_eq!(report.commits[..], commits[..50]);
}

#[test]
fn monthly_report_holds_the_first_hundred_commits() {
    let commits = many(130);
    let groups = vec![
        repo_group("one", commits[..70].to_vec()),
        repo_group("two", commits[70..].to_vec()),
    ];
    let (mut generation, _) = service().generate_monthly(groups, None);
    let action = generation.step(found(
        "{{total_commits}}:{{#each repo_groups}}{{repo_name}}={{commit_count}};{{/each}}",
    ));
    assert_eq!(action, Action::SendPrompt { prompt: "100:one=70;two=30;".to_string() });
    let report = finish(&mut generation, &["text"]);
    assert_eq!(report.commits.len(), 100);
    assert_eq!(report.commits[..], commits[..100]);
}

#[test]
fn a_report_at_the_cap_is_not_cut() {
    let commits = many(50);
    let (mut generation, _) =
        service().generate_weekly(vec![repo_group("X", commits.clone())], None);
    generation.step(found("p"));
    assert_eq!(finish(&mut generation, &["text"]).commits, commits);
}

#[test]
fn no_repository_is_an_input_error() {
    let (mut generation, action) = service().generate_weekly(Vec::new(), None);
    assert_eq!(action, Action::Fail { error: ReportError::Input(InputError::NoRepositories) });
    assert_eq!(generation.current_phase(), Phase::Closed);
    let later = generation.step(found("prompt"));
    assert_eq!(later, Action::Fail { error: ReportError::Provider(ProviderError::OutOfTurn) });
}

#[test]
fn no_commit_is_an_input_error_and_nothing_is_sent() {
    let groups = vec![repo_group("one", vec![]), repo_group("two", vec![])];
    let (mut generation, action) = service().generate_monthly(groups, Some("t".to_string()));
    assert_eq!(action, Action::Fail { error: ReportError::Input(InputError::NoCommits) });
    for event in [found("prompt"), delta("text"), Event::StreamEnded, Event::SinkClosed] {
        let action = generation.step(event);
        assert!(!matches!(action, Action::SendPrompt { .. }));
        assert!(!matches!(action, Action::Finish { .. }));
        assert_eq!(generation.current_phase(), Phase::Closed);
    }
}

#[test]
fn unknown_template_fails_the_generation() {
    let (mut generation, _) =
        service().generate_weekly(vec![repo_group("X", many(1))], Some("nope".to_string()));
    let action = generation.step(Event::TemplateMissing { message: "nope".to_string() });
    assert_eq!(
        action,
        Action::Fail {
            error: ReportError::Template(TemplateError::NotFound { message: "nope".to_string() })
        }
    );
    assert_eq!(generation.current_phase(), Phase::Closed);
}

#[test]
fn template_that_cannot_be_rendered_fails_the_generation() {
    let (mut generation, _) = service().generate_weekly(vec![repo_group("X", many(1))], None);
    let action = generation.step(found("{{#if}}"));
    assert!(matches!(
        action,
        Action::Fail { error: ReportError::Template(TemplateError::Render { .. }) }
    ));
    assert_eq!(generation.current_phase(), Phase::Closed);
}

#[test]
fn template_that_refers_to_an_unknown_value_fails_the_generation() {
    let (mut generation, _) = service().generate_weekly(vec![repo_group("X", many(1))], None);
    let action = generation.step(found("{{total_commits}} commits in {{weeks_count}} weeks"));
    assert!(matches!(
        action,
        Action::Fail { error: ReportError::Template(TemplateError::Render { .. }) }
    ));
    assert_eq!(generation.current_phase(), Phase::Closed);
    let later = generation.step(delta("text"));
    assert!(!matches!(later, Action::Relay { .. }));
}

#[test]
fn template_that_includes_itself_fails_the_generation() {
    let (mut generation, _) = service().generate_weekly(vec![repo_group("X", many(1))], None);
    let action = generation.step(found("{{#*inline \"a\"}}{{> a}}{{/inline}}{{> a}}"));
    assert_eq!(
        action,
        Action::Fail {
            error: ReportError::Template(TemplateError::Render {
                message: "partials and decorators are not supported".to_string()
            })
        }
    );
    assert_eq!(generation.current_phase(), Phase::Closed);
}

#[test]
fn closed_sink_aborts_the_stream_and_gives_no_report() {
    let (mut generation, _) = service().generate_weekly(vec![repo_group("X", many(3))], None);
    generation.step(found("prompt"));
    assert_eq!(generation.step(delta("partial ")), Action::Relay { text: "partial ".to_string() });
    let action = generation.step(Event::SinkClosed);
    assert_eq!(action, Action::Abort { error: ReportError::Provider(ProviderError::Cancelled) });
    assert_eq!(generation.current_phase(), Phase::Closed);
    let later = generation.step(Event::StreamEnded);
    assert_eq!(later, Action::Fail { error: ReportError::Provider(ProviderError::OutOfTurn) });
}

#[test]
fn failed_stream_gives_no_report() {
    let (mut generation, _) = service().generate_weekly(vec![repo_group("X", many(3))], None);
    generation.step(found("prompt"));
    generation.step(delta("partial"));
    let action = generation.step(Event::StreamFailed { message: "connection reset".to_string() });
    assert_eq!(
        action,
        Action::Fail {
            error: ReportError::Provider(ProviderError::Stream {
                message: "connection reset".to_string()
            })
        }
    );
    assert_eq!(generation.current_phase(), Phase::Closed);
}

#[test]
fn empty_stream_gives_no_report() {
    let (mut generation, _) = service().generate_weekly(vec![repo_group("X", many(3))], None);
    generation.step(found("prompt"));
    let action = generation.step(Event::StreamEnded);
    assert_eq!(action, Action::Fail { error: ReportError::Provider(ProviderError::EmptyStream) });

    let (mut generation, _) = service().generate_weekly(vec![repo_group("X", many(3))], None);
    generation.step(found("prompt"));
    assert_eq!(generation.step(delta("")), Action::Relay { text: String::new() });
    let action = generation.step(Event::StreamEnded);
    assert_eq!(action, Action::Fail { error: ReportError::Provider(ProviderError::EmptyStream) });
}

#[test]
fn events_out_of_turn_fail_the_generation() {
    for event in [delta("text"), Event::StreamEnded, Event::SinkClosed] {
        let (mut generation, _) = service().generate_weekly(vec![repo_group("X", many(1))], None);
        let action = generation.step(event);
        assert_eq!(action, Action::Fail { error: ReportError::Provider(ProviderError::OutOfTurn) });
        assert_eq!(generation.current_phase(), Phase::Closed);
    }
    let (mut generation, _) = service().generate_weekly(vec![repo_group("X", many(1))], None);
    generation.step(found("prompt"));
    let action = generation.step(found("again"));
    assert_eq!(action, Action::Fail { error: ReportError::Provider(ProviderError::OutOfTurn) });
}

#[test]
fn start_at_counts_misplaced_commits_in_the_given_week() {
    let commits = vec![change(0, "a", i64::MAX), change(1, "a", JAN_1_2024)];
    let (mut generation, _) = Generation::start_at(
        ReportType::Monthly,
        vec![repo_group("X", commits.clone())],
        None,
        (2024, 1),
    );
    assert_eq!(
        generation.step(found("{{weeks_count}}")),
        Action::SendPrompt { prompt: "1".to_string() }
    );
    let (mut generation, _) =
        Generation::start_at(ReportType::Monthly, vec![repo_group("X", commits)], None, (2024, 2));
    assert_eq!(
        generation.step(found("{{weeks_count}}")),
        Action::SendPrompt { prompt: "2".to_string() }
    );
}

#[test]
fn report_errors_describe_themselves() {
    assert_eq!(
        ReportError::Input(InputError::NoRepositories).message(),
        "No repositories provided for report generation"
    );
    assert_eq!(
        ReportError::Input(InputError::NoCommits).message(),
        "No commits provided for report generation"
    );
    assert_eq!(
        ReportError::Provider(ProviderError::Stream { message: "timeout".to_string() }).message(),
        "Provider error: timeout"
    );
    assert_eq!(
        ReportError::Provider(ProviderError::EmptyStream).message(),
        "The provider returned no content"
    );
    assert_eq!(
        ReportError::Provider(ProviderError::Cancelled).message(),
        "The generation was cancelled"
    );
    assert_eq!(
        ReportError::Provider(ProviderError::OutOfTurn).message(),
        "Unexpected event for the generation"
    );
    assert_eq!(
        ReportError::Template(TemplateError::NotFound { message: "x".to_string() }).message(),
        "Template not found: x"
    );
}

#[test]
fn service_keeps_its_provider() {
    let provider = LLMProvider::DeepSeek { api_key: "k".to_string() };
    let report_service = ReportService::new(LLMService::new(provider.clone()));
    assert_eq!(*report_service.llm_service().provider(), provider);
}
