//! The streaming generation of one report, as a state machine.
//!
//! A generation never talks to the template store, the provider or the
//! progress sink itself. It says what is to be done next (an [`Action`]),
//! and is told what happened (an [`Event`]). Whoever drives it performs the
//! actions and hands back the events.

use crate::error::{InputError, ProviderError, ReportError, TemplateError};
use crate::models::commit::{clone_commits, Commit};
use crate::models::report::{RepoGroup, Report, ReportType};
use crate::services::aggregator::{capped, groups_capped, key_ints, merged, CommitAggregator};
use crate::services::calendar::utc_now;
use crate::services::prompt::{context_of, prompt_of, PromptContext};
use vstd::prelude::*;

verus! {

/// The length of the identifier of a report.
pub const REPORT_ID_LEN: usize = 36;

/// Calls `uuid::Uuid::new_v4` and writes the identifier through its
/// `Display`. Trusted: the text is 36 characters long. Nothing else is
/// claimed of it; two calls may give any two texts.
#[verifier::external_body]
pub(crate) fn fresh_id() -> (id: String)
    ensures
        id@.len() == REPORT_ID_LEN,
{
    uuid::Uuid::new_v4().to_string()
}

/// What a generation is waiting for.
#[derive(Debug, Clone, Copy, PartialEq, Eq, Structural)]
pub enum Phase {
    /// The template has been asked for.
    AwaitingTemplate,
    /// The prompt has been sent; text is arriving.
    Streaming,
    /// The generation is over, with a report or with a failure.
    Closed,
}

/// What happened outside since the last action.
#[derive(Debug, PartialEq, Eq)]
pub enum Event {
    /// The template store returned a template.
    TemplateFound { content: String },
    /// The template store has no such template.
    TemplateMissing { message: String },
    /// The provider sent a piece of text.
    Delta { text: String },
    /// The consumer of the progress no longer listens.
    SinkClosed,
    /// The provider's stream ended regularly.
    StreamEnded,
    /// The connection, the provider or its stream failed.
    StreamFailed { message: String },
}

/// What is to be done next.
#[derive(Debug, PartialEq, Eq)]
pub enum Action {
    /// Ask the template store for the template `id`.
    FetchTemplate { id: String },
    /// Ask the template store for the default template of `report_type`.
    FetchDefaultTemplate { report_type: ReportType },
    /// Send `prompt` to the provider and start reading its stream.
    SendPrompt { prompt: String },
    /// Pass `text` on to the progress sink, then read on.
    Relay { text: String },
    /// Abort the provider's stream; the generation ends with `error`.
    Abort { error: ReportError },
    /// The generation ends with `report`.
    Finish { report: Report },
    /// The generation ends with `error`; nothing is to be aborted.
    Fail { error: ReportError },
}

/// One generation of a report.
#[derive(Debug)]
pub struct Generation {
    report_type: ReportType,
    groups: Vec<RepoGroup>,
    commits: Vec<Commit>,
    week: (i32, u32),
    phase: Phase,
    content: String,
}

/// The failure that an empty input is answered with.
pub open spec fn empty_input_error(groups: Seq<RepoGroup>) -> InputError {
    if groups.len() == 0 {
        InputError::NoRepositories
    } else {
        InputError::NoCommits
    }
}

impl Generation {
    #[verifier::type_invariant]
    spec fn consistent(self) -> bool {
        &&& self.commits@ == merged(self.groups@)
        &&& self.commits@.len() <= self.report_type.cap()
        &&& self.phase != Phase::Closed ==> self.commits@.len() > 0
    }

    /// The kind of report being generated.
    pub closed spec fn report_type(self) -> ReportType {
        self.report_type
    }

    /// The repository groups the prompt is built from, already truncated.
    pub closed spec fn groups(self) -> Seq<RepoGroup> {
        self.groups@
    }

    /// The commits the prompt is built from, and the report will hold.
    pub closed spec fn commits(self) -> Seq<Commit> {
        self.commits@
    }

    /// The week that commits without a valid timestamp are counted in.
    pub closed spec fn week(self) -> (int, int) {
        key_ints(self.week)
    }

    /// What the generation is waiting for.
    pub closed spec fn phase(self) -> Phase {
        self.phase
    }

    /// The text received so far.
    pub closed spec fn content(self) -> Seq<char> {
        self.content@
    }

    /// What holds of every generation that this module hands out: its commits
    /// are those of its groups, they are no more than the report's kind
    /// allows, and there is at least one while the generation is not over.
    pub open spec fn well_formed(self) -> bool {
        &&& self.commits() == merged(self.groups())
        &&& self.commits().len() <= self.report_type().cap()
        &&& self.phase() != Phase::Closed ==> self.commits().len() > 0
    }

    /// `generation` and `action` are how a generation of a report of kind
    /// `report_type` over `groups` begins. Without any commit it is over at
    /// once, with the failure of an empty input. Otherwise the groups are
    /// truncated to the kind's cap and the template is asked for: the one
    /// named by `template_id`, or the default of the kind.
    pub open spec fn begins(
        report_type: ReportType,
        groups: Seq<RepoGroup>,
        template_id: Option<String>,
        week: (int, int),
        generation: Generation,
        action: Action,
    ) -> bool {
        if merged(groups).len() == 0 {
            &&& generation.well_formed()
            &&& generation.phase() == Phase::Closed
            &&& action == (Action::Fail { error: ReportError::Input(empty_input_error(groups)) })
        } else {
            &&& generation.well_formed()
            &&& generation.phase() == Phase::AwaitingTemplate
            &&& generation.report_type() == report_type
            &&& generation.week() == week
            &&& generation.content() == Seq::<char>::empty()
            &&& groups_capped(groups, report_type.cap(), generation.groups())
            &&& generation.commits() == capped(merged(groups), report_type.cap())
            &&& action == match template_id {
                Some(id) => Action::FetchTemplate { id },
                None => Action::FetchDefaultTemplate { report_type },
            }
        }
    }

    /// `after` and `action` are how the generation `before` moves on
    /// `event`, but for the identifier and the time of a report.
    ///
    /// While the template is awaited, a template is rendered into the prompt
    /// that is then sent, or the generation fails where the template is
    /// missing or cannot be rendered. While text is streaming, each piece is
    /// appended and relayed; a closed sink aborts the stream; a failed
    /// stream fails the generation; and a stream that ends gives the report,
    /// unless no text came at all. Any other event fails the generation.
    /// Only a relayed piece of text leaves the generation open.
    pub open spec fn moves(before: Generation, event: Event, after: Generation, action: Action) -> bool {
        &&& after.well_formed()
        &&& after.report_type() == before.report_type()
        &&& after.groups() == before.groups()
        &&& after.commits() == before.commits()
        &&& after.week() == before.week()
        &&& match (before.phase(), event) {
            (Phase::AwaitingTemplate, Event::TemplateFound { content }) => {
                let context = context_of(before.report_type(), before.groups(), before.week());
                match prompt_of(content@, context) {
                    Some(text) => {
                        &&& after.phase() == Phase::Streaming
                        &&& after.content() == before.content()
                        &&& action matches Action::SendPrompt { prompt }
                        &&& prompt@ == text
                    },
                    None => {
                        &&& after.phase() == Phase::Closed
                        &&& action matches Action::Fail { error: ReportError::Template(e) }
                        &&& e is Render
                    },
                }
            },
            (Phase::AwaitingTemplate, Event::TemplateMissing { message }) => {
                &&& after.phase() == Phase::Closed
                &&& action == (Action::Fail {
                    error: ReportError::Template(TemplateError::NotFound { message }),
                })
            },
            (Phase::Streaming, Event::Delta { text }) => {
                &&& after.phase() == Phase::Streaming
                &&& after.content() == before.content() + text@
                &&& action == (Action::Relay { text })
            },
            (Phase::Streaming, Event::SinkClosed) => {
                &&& after.phase() == Phase::Closed
                &&& action == (Action::Abort { error: ReportError::Provider(ProviderError::Cancelled) })
            },
            (Phase::Streaming, Event::StreamFailed { message }) => {
                &&& after.phase() == Phase::Closed
                &&& action == (Action::Fail {
                    error: ReportError::Provider(ProviderError::Stream { message }),
                })
            },
            (Phase::Streaming, Event::StreamEnded) => {
                &&& after.phase() == Phase::Closed
                &&& if before.content().len() == 0 {
                    action == (Action::Fail {
                        error: ReportError::Provider(ProviderError::EmptyStream),
                    })
                } else {
                    &&& action matches Action::Finish { report }
                    &&& report.report_type == before.report_type()
                    &&& report.content@ == before.content()
                    &&& report.commits@ == before.commits()
                    &&& report.well_formed()
                }
            },
            _ => {
                &&& after.phase() == Phase::Closed
                &&& action == (Action::Fail { error: ReportError::Provider(ProviderError::OutOfTurn) })
            },
        }
    }

    /// `after` and `action` are how the generation `before` answers `event`
    /// where a report, if one comes, is given the identifier `id` and the
    /// time `now`.
    pub open spec fn answers_at(
        before: Generation,
        event: Event,
        now: int,
        id: String,
        after: Generation,
        action: Action,
    ) -> bool {
        &&& Self::moves(before, event, after, action)
        &&& action matches Action::Finish { report } ==> report.id == id && report.generated_at
            == now
    }

    /// `after` and `action` are how the generation `before` answers `event`,
    /// whatever identifier and time a report is given: the identifier has
    /// the length of a UUID in text.
    pub open spec fn answers(before: Generation, event: Event, after: Generation, action: Action) -> bool {
        &&& Self::moves(before, event, after, action)
        &&& action matches Action::Finish { report } ==> report.id@.len() == REPORT_ID_LEN
    }

    /// Begins the generation of a report of kind `report_type` over
    /// `groups`. Commits without a valid timestamp are counted in `week`.
    pub fn start_at(
        report_type: ReportType,
        groups: Vec<RepoGroup>,
        template_id: Option<String>,
        week: (i32, u32),
    ) -> (begun: (Generation, Action))
        ensures
            Self::begins(report_type, groups@, template_id, key_ints(week), begun.0, begun.1),
    {
        match CommitAggregator::merge(&groups) {
            Err(error) => {
                let closed = Generation {
                    report_type,
                    groups: Vec::new(),
                    commits: Vec::new(),
                    week,
                    phase: Phase::Closed,
                    content: String::new(),
                };
                (closed, Action::Fail { error: ReportError::Input(error) })
            },
            Ok(all) => {
                let cap = report_type.commit_cap();
                let kept = CommitAggregator::cap_groups(&groups, cap);
                let commits = CommitAggregator::cap(all, cap);
                let generation = Generation {
                    report_type,
                    groups: kept,
                    commits,
                    week,
                    phase: Phase::AwaitingTemplate,
                    content: String::new(),
                };
                let action = match template_id {
                    Some(id) => Action::FetchTemplate { id },
                    None => Action::FetchDefaultTemplate { report_type },
                };
                (generation, action)
            },
        }
    }

    /// Begins the generation of a report of kind `report_type` over
    /// `groups`. Commits without a valid timestamp are counted in the week
    /// of the call.
    pub fn start(report_type: ReportType, groups: Vec<RepoGroup>, template_id: Option<String>) -> (begun:
        (Generation, Action))
        ensures
            exists|week: (int, int)|
                Self::begins(report_type, groups@, template_id, week, begun.0, begun.1),
    {
        let now = utc_now();
        let begun = Self::start_at(report_type, groups, template_id, (now.1, now.2));
        assert(Self::begins(
            report_type,
            groups@,
            template_id,
            key_ints((now.1, now.2)),
            begun.0,
            begun.1,
        ));
        begun
    }

    /// What the generation is waiting for.
    pub fn current_phase(&self) -> (phase: Phase)
        ensures
            phase == self.phase(),
    {
        self.phase
    }

    /// The number of commits the report will hold.
    pub fn commit_count(&self) -> (count: usize)
        ensures
            count == self.commits().len(),
    {
        self.commits.len()
    }

    /// Tells the generation what happened and returns what is to be done
    /// next. A report, if one comes, is given the identifier `id` and the
    /// time `now`; otherwise the two are not used.
    pub fn step_at(&mut self, event: Event, now: i64, id: String) -> (action: Action)
        ensures
            Self::answers_at(*old(self), event, now as int, id, *final(self), action),
    {
        proof {
            use_type_invariant(&*self);
        }
        match self.phase {
            Phase::AwaitingTemplate => match event {
                Event::TemplateFound { content } => {
                    let context = PromptContext::build(self.report_type, &self.groups, self.week);
                    match context.render(content.as_str()) {
                        Ok(prompt) => {
                            self.phase = Phase::Streaming;
                            Action::SendPrompt { prompt }
                        },
                        Err(error) => {
                            self.phase = Phase::Closed;
                            Action::Fail { error: ReportError::Template(error) }
                        },
                    }
                },
                Event::TemplateMissing { message } => {
                    self.phase = Phase::Closed;
                    Action::Fail { error: ReportError::Template(TemplateError::NotFound { message }) }
                },
                _ => {
                    self.phase = Phase::Closed;
                    Action::Fail { error: ReportError::Provider(ProviderError::OutOfTurn) }
                },
            },
            Phase::Streaming => match event {
                Event::Delta { text } => {
                    let mut grown = self.content.clone();
                    grown.append(text.as_str());
                    self.content = grown;
                    Action::Relay { text }
                },
                Event::SinkClosed => {
                    self.phase = Phase::Closed;
                    Action::Abort { error: ReportError::Provider(ProviderError::Cancelled) }
                },
                Event::StreamFailed { message } => {
                    self.phase = Phase::Closed;
                    Action::Fail { error: ReportError::Provider(ProviderError::Stream { message }) }
                },
                Event::StreamEnded => {
                    self.phase = Phase::Closed;
                    if self.content.as_str().is_empty() {
                        Action::Fail { error: ReportError::Provider(ProviderError::EmptyStream) }
                    } else {
                        let report = Report {
                            id,
                            report_type: self.report_type,
                            generated_at: now,
                            content: self.content.clone(),
                            commits: clone_commits(&self.commits),
                        };
                        Action::Finish { report }
                    }
                },
                _ => {
                    self.phase = Phase::Closed;
                    Action::Fail { error: ReportError::Provider(ProviderError::OutOfTurn) }
                },
            },
            Phase::Closed => {
                Action::Fail { error: ReportError::Provider(ProviderError::OutOfTurn) }
            },
        }
    }

    /// Tells the generation what happened and returns what is to be done
    /// next. Where the stream has ended, the clock is read and a fresh
    /// identifier is drawn for the report; what is made of them is
    /// [`Generation::step_at`].
    pub fn step(&mut self, event: Event) -> (action: Action)
        ensures
            Self::answers(*old(self), event, *final(self), action),
    {
        match event {
            Event::StreamEnded => {
                let now = utc_now();
                let id = fresh_id();
                self.step_at(Event::StreamEnded, now.0, id)
            },
            other => self.step_at(other, 0, String::new()),
        }
    }
}

/// The texts of the pieces among `events`, one after the other.
pub open spec fn relayed_text(events: Seq<Event>) -> Seq<char>
    decreases events.len(),
{
    if events.len() == 0 {
        Seq::empty()
    } else {
        let before = relayed_text(events.drop_last());
        match events.last() {
            Event::Delta { text } => before + text@,
            _ => before,
        }
    }
}

/// `states` and `actions` are what a generation that starts as `first` goes
/// through and answers when it is told `events` one after the other.
pub open spec fn runs(
    first: Generation,
    events: Seq<Event>,
    states: Seq<Generation>,
    actions: Seq<Action>,
) -> bool {
    &&& states.len() == events.len() + 1
    &&& actions.len() == events.len()
    &&& states[0] == first
    &&& forall|i: int|
        0 <= i < events.len() ==> Generation::answers(
            #[trigger] states[i],
            events[i],
            states[i + 1],
            actions[i],
        )
}

/// Through a whole run the commits stay what they were at the start, and a
/// generation that is over stays over.
pub proof fn lemma_run_keeps(
    first: Generation,
    events: Seq<Event>,
    states: Seq<Generation>,
    actions: Seq<Action>,
    i: int,
)
    requires
        runs(first, events, states, actions),
        0 <= i <= events.len(),
    ensures
        states[i].commits() == first.commits(),
        states[i].report_type() == first.report_type(),
        first.phase() == Phase::Closed ==> states[i].phase() == Phase::Closed,
    decreases i,
{
    if i > 0 {
        lemma_run_keeps(first, events, states, actions, i - 1);
        assert(Generation::answers(states[i - 1], events[i - 1], states[i], actions[i - 1]));
    }
}

/// A report holds the first commits of the merged input, as many as its
/// kind allows: where the input is longer than the cap, exactly the first
/// `cap` commits in their order.
pub proof fn lemma_report_commits_truncated(
    report_type: ReportType,
    groups: Seq<RepoGroup>,
    template_id: Option<String>,
    week: (int, int),
    first: Generation,
    first_action: Action,
    events: Seq<Event>,
    states: Seq<Generation>,
    actions: Seq<Action>,
    i: int,
)
    requires
        Generation::begins(report_type, groups, template_id, week, first, first_action),
        runs(first, events, states, actions),
        0 <= i < events.len(),
        actions[i] is Finish,
    ensures
        actions[i]->report.commits@ == capped(merged(groups), report_type.cap()),
        actions[i]->report.commits@.len() <= report_type.cap(),
        merged(groups).len() > report_type.cap() ==> actions[i]->report.commits@.len()
            == report_type.cap() && actions[i]->report.commits@ == merged(groups).take(
            report_type.cap() as int,
        ),
{
    lemma_run_keeps(first, events, states, actions, i);
    assert(Generation::answers(states[i], events[i], states[i + 1], actions[i]));
    if merged(groups).len() == 0 {
        assert(states[i].phase() == Phase::Closed);
    }
}

/// A generation over no commits fails at once with the failure of an empty
/// input, and no prompt is ever sent to the provider, whatever it is told
/// afterwards.
pub proof fn lemma_empty_input_sends_nothing(
    report_type: ReportType,
    groups: Seq<RepoGroup>,
    template_id: Option<String>,
    week: (int, int),
    first: Generation,
    first_action: Action,
    events: Seq<Event>,
    states: Seq<Generation>,
    actions: Seq<Action>,
)
    requires
        merged(groups).len() == 0,
        Generation::begins(report_type, groups, template_id, week, first, first_action),
        runs(first, events, states, actions),
    ensures
        first_action == (Action::Fail { error: ReportError::Input(empty_input_error(groups)) }),
        forall|i: int|
            0 <= i < actions.len() ==> !(#[trigger] actions[i] is SendPrompt) && !(actions[i] is Finish),
{
    assert forall|i: int| 0 <= i < actions.len() implies !(#[trigger] actions[i] is SendPrompt) && !(
    actions[i] is Finish) by {
        lemma_run_keeps(first, events, states, actions, i);
        assert(Generation::answers(states[i], events[i], states[i + 1], actions[i]));
    }
}

/// While a generation is open, the text it holds is what the pieces
/// received so far add up to.
pub proof fn lemma_content_is_relayed(
    report_type: ReportType,
    groups: Seq<RepoGroup>,
    template_id: Option<String>,
    week: (int, int),
    first: Generation,
    first_action: Action,
    events: Seq<Event>,
    states: Seq<Generation>,
    actions: Seq<Action>,
    i: int,
)
    requires
        Generation::begins(report_type, groups, template_id, week, first, first_action),
        runs(first, events, states, actions),
        0 <= i <= events.len(),
    ensures
        states[i].phase() != Phase::Closed ==> states[i].content() == relayed_text(events.take(i)),
    decreases i,
{
    if i == 0 {
        assert(events.take(0).len() == 0);
    } else {
        lemma_content_is_relayed(
            report_type,
            groups,
            template_id,
            week,
            first,
            first_action,
            events,
            states,
            actions,
            i - 1,
        );
        assert(Generation::answers(states[i - 1], events[i - 1], states[i], actions[i - 1]));
        assert(events.take(i).drop_last() == events.take(i - 1));
        assert(events.take(i).last() == events[i - 1]);
    }
}

/// A report comes only when the stream has ended regularly, and then holds
/// all the text that was received, which is not empty: partial output never
/// becomes a report.
pub proof fn lemma_report_is_complete(
    report_type: ReportType,
    groups: Seq<RepoGroup>,
    template_id: Option<String>,
    week: (int, int),
    first: Generation,
    first_action: Action,
    events: Seq<Event>,
    states: Seq<Generation>,
    actions: Seq<Action>,
    i: int,
)
    requires
        Generation::begins(report_type, groups, template_id, week, first, first_action),
        runs(first, events, states, actions),
        0 <= i < events.len(),
        actions[i] is Finish,
    ensures
        events[i] is StreamEnded,
        actions[i]->report.content@ == relayed_text(events.take(i)),
        actions[i]->report.content@.len() > 0,
        actions[i]->report.report_type == report_type,
{
    lemma_run_keeps(first, events, states, actions, i);
    lemma_content_is_relayed(
        report_type,
        groups,
        template_id,
        week,
        first,
        first_action,
        events,
        states,
        actions,
        i,
    );
    assert(Generation::answers(states[i], events[i], states[i + 1], actions[i]));
}

/// Once the consumer of the progress has stopped listening, the stream is
/// aborted and no report comes any more.
pub proof fn lemma_cancelled_gives_no_report(
    events: Seq<Event>,
    states: Seq<Generation>,
    actions: Seq<Action>,
    j: int,
    i: int,
)
    requires
        runs(states[0], events, states, actions),
        0 <= j < i < events.len(),
        events[j] is SinkClosed,
    ensures
        !(actions[j] is Finish),
        states[j].phase() == Phase::Streaming ==> actions[j] is Abort,
        !(actions[i] is Finish),
        !(actions[i] is SendPrompt),
{
    assert(Generation::answers(states[j], events[j], states[j + 1], actions[j]));
    assert(states[j + 1].phase() == Phase::Closed);
    lemma_closed_stays(events, states, actions, j + 1, i);
    assert(Generation::answers(states[i], events[i], states[i + 1], actions[i]));
}

/// A generation that is over at one point of a run is over at every later
/// point.
pub proof fn lemma_closed_stays(
    events: Seq<Event>,
    states: Seq<Generation>,
    actions: Seq<Action>,
    from: int,
    to: int,
)
    requires
        runs(states[0], events, states, actions),
        0 <= from <= to <= events.len(),
        states[from].phase() == Phase::Closed,
    ensures
        states[to].phase() == Phase::Closed,
    decreases to - from,
{
    if from < to {
        lemma_closed_stays(events, states, actions, from, to - 1);
        assert(Generation::answers(states[to - 1], events[to - 1], states[to], actions[to - 1]));
    }
}

} // verus!
