//! The pipeline as a state machine: the caller performs each action (querying
//! the version-control system, calling the model service, asking the
//! operator, committing) and hands the result back as the next event.

use vstd::prelude::*;
use crate::confirm::{Choice, choice_of, parse_choice};
use crate::generation::{ReplyError, ReplyView, describe_reply_error};
use crate::text::{blank, is_blank, trim_idempotent, trim_of, trim_text};

verus! {

/// How the operator confirms or edits the proposed message.
#[derive(PartialEq, Eq, Structural, Clone, Copy, Debug)]
pub enum Strategy {
    /// Show the message, then ask to accept, edit in an external editor, or reject.
    PromptAndBranch,
    /// Offer the message as an editable line: confirming it commits, cancelling aborts.
    Inline,
}

/// Where a run stands.
pub enum Phase {
    Start,
    AwaitStaged,
    AwaitUnstaged,
    AwaitSummary,
    AwaitMessage,
    AwaitChoice(String),
    AwaitEditor(String),
    AwaitInline(String),
    AwaitCommit,
    Finished,
}

/// What the caller reports back after performing an action.
pub enum Event {
    /// The run begins.
    Begin,
    /// The staged diff, or the version-control system's error text.
    StagedDiff(Result<String, String>),
    /// The unstaged diff, or the version-control system's error text.
    UnstagedDiff(Result<String, String>),
    /// The model service's message, or why there is none.
    Reply(Result<String, ReplyError>),
    /// The line the operator typed at the accept / edit / reject prompt.
    Answer(String),
    /// The external editor exited, successfully or not, leaving `contents` in the file.
    EditorClosed { succeeded: bool, contents: String },
    /// The inline editor was confirmed with a line, or cancelled.
    InlineClosed(Option<String>),
    /// The commit command exited, successfully or not.
    CommitDone(bool),
}

/// How a run ends.
pub enum Outcome {
    Committed,
    DiffFailed(String),
    NothingStaged,
    /// Nothing staged but unstaged changes exist; their summary when one was generated.
    UnstagedOnly(Option<String>),
    GenerationFailed(ReplyError),
    EmptyMessage,
    Aborted,
    EmptyEdit,
    CommitFailed,
}

/// What the caller does next.
pub enum Action {
    FetchStaged,
    FetchUnstaged,
    /// Ask the model service to describe these unstaged changes.
    Summarize(String),
    /// Ask the model service for a commit message for this staged diff.
    Generate(String),
    /// Show the message and ask to accept, edit or reject it.
    AskChoice(String),
    /// Open the message in the external editor.
    OpenEditor(String),
    /// Offer the message as an editable line.
    EditInline(String),
    /// Commit with exactly this message.
    Commit(String),
    /// The run is over.
    Finish(Outcome),
    /// The event does not belong to the current phase: nothing to do.
    Idle,
}

pub enum PhaseView {
    Start,
    AwaitStaged,
    AwaitUnstaged,
    AwaitSummary,
    AwaitMessage,
    AwaitChoice(Seq<char>),
    AwaitEditor(Seq<char>),
    AwaitInline(Seq<char>),
    AwaitCommit,
    Finished,
}

pub enum OutcomeView {
    Committed,
    DiffFailed(Seq<char>),
    NothingStaged,
    UnstagedOnly(Option<Seq<char>>),
    GenerationFailed(ReplyView),
    EmptyMessage,
    Aborted,
    EmptyEdit,
    CommitFailed,
}

pub enum ActionView {
    FetchStaged,
    FetchUnstaged,
    Summarize(Seq<char>),
    Generate(Seq<char>),
    AskChoice(Seq<char>),
    OpenEditor(Seq<char>),
    EditInline(Seq<char>),
    Commit(Seq<char>),
    Finish(OutcomeView),
    Idle,
}

impl Phase {
    pub open spec fn view(&self) -> PhaseView {
        match self {
            Phase::Start => PhaseView::Start,
            Phase::AwaitStaged => PhaseView::AwaitStaged,
            Phase::AwaitUnstaged => PhaseView::AwaitUnstaged,
            Phase::AwaitSummary => PhaseView::AwaitSummary,
            Phase::AwaitMessage => PhaseView::AwaitMessage,
            Phase::AwaitChoice(m) => PhaseView::AwaitChoice(m@),
            Phase::AwaitEditor(m) => PhaseView::AwaitEditor(m@),
            Phase::AwaitInline(m) => PhaseView::AwaitInline(m@),
            Phase::AwaitCommit => PhaseView::AwaitCommit,
            Phase::Finished => PhaseView::Finished,
        }
    }
}

impl Outcome {
    pub open spec fn view(&self) -> OutcomeView {
        match self {
            Outcome::Committed => OutcomeView::Committed,
            Outcome::DiffFailed(e) => OutcomeView::DiffFailed(e@),
            Outcome::NothingStaged => OutcomeView::NothingStaged,
            Outcome::UnstagedOnly(s) => OutcomeView::UnstagedOnly(match s {
                Some(t) => Some(t@),
                None => None,
            }),
            Outcome::GenerationFailed(e) => OutcomeView::GenerationFailed(e.view()),
            Outcome::EmptyMessage => OutcomeView::EmptyMessage,
            Outcome::Aborted => OutcomeView::Aborted,
            Outcome::EmptyEdit => OutcomeView::EmptyEdit,
            Outcome::CommitFailed => OutcomeView::CommitFailed,
        }
    }
}

impl Action {
    pub open spec fn view(&self) -> ActionView {
        match self {
            Action::FetchStaged => ActionView::FetchStaged,
            Action::FetchUnstaged => ActionView::FetchUnstaged,
            Action::Summarize(d) => ActionView::Summarize(d@),
            Action::Generate(d) => ActionView::Generate(d@),
            Action::AskChoice(m) => ActionView::AskChoice(m@),
            Action::OpenEditor(m) => ActionView::OpenEditor(m@),
            Action::EditInline(m) => ActionView::EditInline(m@),
            Action::Commit(m) => ActionView::Commit(m@),
            Action::Finish(o) => ActionView::Finish(o.view()),
            Action::Idle => ActionView::Idle,
        }
    }
}

/// A message waiting for the operator is never blank.
pub open spec fn phase_wf(ph: PhaseView) -> bool {
    match ph {
        PhaseView::AwaitChoice(m) => !blank(m),
        PhaseView::AwaitEditor(m) => !blank(m),
        PhaseView::AwaitInline(m) => !blank(m),
        _ => true,
    }
}

/// The rules of the pipeline: the next phase and the action, given the current
/// phase, the confirmation strategy and the event.
pub open spec fn transition(ph: PhaseView, s: Strategy, e: Event) -> (PhaseView, ActionView) {
    let finish = |o: OutcomeView| (PhaseView::Finished, ActionView::Finish(o));
    match ph {
        PhaseView::Start => match e {
            Event::Begin => (PhaseView::AwaitStaged, ActionView::FetchStaged),
            _ => (ph, ActionView::Idle),
        },
        PhaseView::AwaitStaged => match e {
            Event::StagedDiff(Err(m)) => finish(OutcomeView::DiffFailed(m@)),
            Event::StagedDiff(Ok(d)) => if blank(d@) {
                (PhaseView::AwaitUnstaged, ActionView::FetchUnstaged)
            } else {
                (PhaseView::AwaitMessage, ActionView::Generate(d@))
            },
            _ => (ph, ActionView::Idle),
        },
        PhaseView::AwaitUnstaged => match e {
            Event::UnstagedDiff(Ok(d)) => if blank(d@) {
                finish(OutcomeView::NothingStaged)
            } else {
                (PhaseView::AwaitSummary, ActionView::Summarize(d@))
            },
            Event::UnstagedDiff(Err(_)) => finish(OutcomeView::NothingStaged),
            _ => (ph, ActionView::Idle),
        },
        PhaseView::AwaitSummary => match e {
            Event::Reply(Ok(m)) => finish(OutcomeView::UnstagedOnly(Some(m@))),
            Event::Reply(Err(_)) => finish(OutcomeView::UnstagedOnly(None)),
            _ => (ph, ActionView::Idle),
        },
        PhaseView::AwaitMessage => match e {
            Event::Reply(Err(err)) => finish(OutcomeView::GenerationFailed(err.view())),
            Event::Reply(Ok(m)) => if blank(m@) {
                finish(OutcomeView::EmptyMessage)
            } else {
                match s {
                    Strategy::PromptAndBranch => (PhaseView::AwaitChoice(m@), ActionView::AskChoice(m@)),
                    Strategy::Inline => (PhaseView::AwaitInline(m@), ActionView::EditInline(m@)),
                }
            },
            _ => (ph, ActionView::Idle),
        },
        PhaseView::AwaitChoice(m) => match e {
            Event::Answer(line) => match choice_of(trim_of(line@)) {
                Choice::Accept => (PhaseView::AwaitCommit, ActionView::Commit(m)),
                Choice::Edit => (PhaseView::AwaitEditor(m), ActionView::OpenEditor(m)),
                Choice::Reject => finish(OutcomeView::Aborted),
            },
            _ => (ph, ActionView::Idle),
        },
        PhaseView::AwaitEditor(m) => match e {
            Event::EditorClosed { succeeded, contents } => if !succeeded {
                (PhaseView::AwaitCommit, ActionView::Commit(m))
            } else if blank(contents@) {
                finish(OutcomeView::EmptyEdit)
            } else {
                (PhaseView::AwaitCommit, ActionView::Commit(trim_of(contents@)))
            },
            _ => (ph, ActionView::Idle),
        },
        PhaseView::AwaitInline(m) => match e {
            Event::InlineClosed(None) => finish(OutcomeView::Aborted),
            Event::InlineClosed(Some(t)) => if blank(t@) {
                finish(OutcomeView::EmptyEdit)
            } else {
                (PhaseView::AwaitCommit, ActionView::Commit(trim_of(t@)))
            },
            _ => (ph, ActionView::Idle),
        },
        PhaseView::AwaitCommit => match e {
            Event::CommitDone(true) => finish(OutcomeView::Committed),
            Event::CommitDone(false) => finish(OutcomeView::CommitFailed),
            _ => (ph, ActionView::Idle),
        },
        PhaseView::Finished => (ph, ActionView::Idle),
    }
}

fn finish(o: Outcome) -> (r: (Phase, Action))
    ensures
        r.0.view() == PhaseView::Finished,
        r.1.view() == ActionView::Finish(o.view()),
{
    (Phase::Finished, Action::Finish(o))
}

/// Applies the rules of `transition` to a phase and an event.
fn advance(ph: Phase, s: Strategy, e: Event) -> (r: (Phase, Action))
    requires
        phase_wf(ph.view()),
    ensures
        (r.0.view(), r.1.view()) == transition(ph.view(), s, e),
        phase_wf(r.0.view()),
{
    match ph {
        Phase::Start => match e {
            Event::Begin => (Phase::AwaitStaged, Action::FetchStaged),
            _ => (Phase::Start, Action::Idle),
        },
        Phase::AwaitStaged => match e {
            Event::StagedDiff(Err(m)) => finish(Outcome::DiffFailed(m)),
            Event::StagedDiff(Ok(d)) => if is_blank(d.as_str()) {
                (Phase::AwaitUnstaged, Action::FetchUnstaged)
            } else {
                (Phase::AwaitMessage, Action::Generate(d))
            },
            _ => (Phase::AwaitStaged, Action::Idle),
        },
        Phase::AwaitUnstaged => match e {
            Event::UnstagedDiff(Ok(d)) => if is_blank(d.as_str()) {
                finish(Outcome::NothingStaged)
            } else {
                (Phase::AwaitSummary, Action::Summarize(d))
            },
            Event::UnstagedDiff(Err(_)) => finish(Outcome::NothingStaged),
            _ => (Phase::AwaitUnstaged, Action::Idle),
        },
        Phase::AwaitSummary => match e {
            Event::Reply(Ok(m)) => finish(Outcome::UnstagedOnly(Some(m))),
            Event::Reply(Err(_)) => finish(Outcome::UnstagedOnly(None)),
            _ => (Phase::AwaitSummary, Action::Idle),
        },
        Phase::AwaitMessage => match e {
            Event::Reply(Err(err)) => finish(Outcome::GenerationFailed(err)),
            Event::Reply(Ok(m)) => if is_blank(m.as_str()) {
                finish(Outcome::EmptyMessage)
            } else {
                match s {
                    Strategy::PromptAndBranch => (Phase::AwaitChoice(m.clone()), Action::AskChoice(m)),
                    Strategy::Inline => (Phase::AwaitInline(m.clone()), Action::EditInline(m)),
                }
            },
            _ => (Phase::AwaitMessage, Action::Idle),
        },
        Phase::AwaitChoice(m) => match e {
            Event::Answer(line) => match parse_choice(line.as_str()) {
                Choice::Accept => (Phase::AwaitCommit, Action::Commit(m)),
                Choice::Edit => (Phase::AwaitEditor(m.clone()), Action::OpenEditor(m)),
                Choice::Reject => finish(Outcome::Aborted),
            },
            _ => (Phase::AwaitChoice(m), Action::Idle),
        },
        Phase::AwaitEditor(m) => match e {
            Event::EditorClosed { succeeded, contents } => if !succeeded {
                (Phase::AwaitCommit, Action::Commit(m))
            } else {
                let edited = trim_text(contents.as_str());
                proof { trim_idempotent(contents@); }
                if is_blank(edited.as_str()) {
                    finish(Outcome::EmptyEdit)
                } else {
                    (Phase::AwaitCommit, Action::Commit(edited))
                }
            },
            _ => (Phase::AwaitEditor(m), Action::Idle),
        },
        Phase::AwaitInline(m) => match e {
            Event::InlineClosed(None) => finish(Outcome::Aborted),
            Event::InlineClosed(Some(t)) => {
                let edited = trim_text(t.as_str());
                proof { trim_idempotent(t@); }
                if is_blank(edited.as_str()) {
                    finish(Outcome::EmptyEdit)
                } else {
                    (Phase::AwaitCommit, Action::Commit(edited))
                }
            },
            _ => (Phase::AwaitInline(m), Action::Idle),
        },
        Phase::AwaitCommit => match e {
            Event::CommitDone(ok) => if ok {
                finish(Outcome::Committed)
            } else {
                finish(Outcome::CommitFailed)
            },
            _ => (Phase::AwaitCommit, Action::Idle),
        },
        Phase::Finished => (Phase::Finished, Action::Idle),
    }
}

/// One run of the pipeline.
pub struct Pipeline {
    strategy: Strategy,
    phase: Phase,
}

impl Pipeline {
    pub closed spec fn strategy_spec(&self) -> Strategy {
        self.strategy
    }

    pub closed spec fn phase_spec(&self) -> PhaseView {
        self.phase.view()
    }

    /// The pipeline's invariant.
    pub open spec fn wf(&self) -> bool {
        phase_wf(self.phase_spec())
    }

    /// A run that has not begun, confirming with `strategy`.
    pub fn new(strategy: Strategy) -> (r: Pipeline)
        ensures
            r.wf(),
            r.strategy_spec() == strategy,
            r.phase_spec() == PhaseView::Start,
    {
        Pipeline { strategy, phase: Phase::Start }
    }

    /// The confirmation strategy of this run.
    pub fn strategy(&self) -> (r: Strategy)
        ensures
            r == self.strategy_spec(),
    {
        self.strategy
    }

    /// Whether the run is over.
    pub fn is_finished(&self) -> (r: bool)
        ensures
            r == (self.phase_spec() is Finished),
    {
        match self.phase {
            Phase::Finished => true,
            _ => false,
        }
    }

    /// Takes in what the last action produced and returns the next action.
    pub fn step(&mut self, event: Event) -> (r: Action)
        requires
            old(self).wf(),
        ensures
            final(self).wf(),
            final(self).strategy_spec() == old(self).strategy_spec(),
            (final(self).phase_spec(), r.view()) == transition(old(self).phase_spec(), old(self).strategy_spec(), event),
    {
        let mut ph = Phase::Finished;
        std::mem::swap(&mut ph, &mut self.phase);
        let (next, action) = advance(ph, self.strategy, event);
        self.phase = next;
        action
    }
}

/// The process exit code of an outcome: zero only after a commit.
pub open spec fn exit_code_of(o: OutcomeView) -> i32 {
    if o is Committed { 0 } else { 1 }
}

/// The text reported on the diagnostic stream when a run ends.
pub open spec fn notice_of(o: OutcomeView) -> Seq<char> {
    match o {
        OutcomeView::Committed => Seq::empty(),
        OutcomeView::DiffFailed(e) => e,
        OutcomeView::NothingStaged => "Nothing staged. Use git add first."@,
        OutcomeView::UnstagedOnly(_) => "Use 'git add' to stage changes."@,
        OutcomeView::GenerationFailed(e) => describe_reply_error(e),
        OutcomeView::EmptyMessage => "Failed to generate commit message."@,
        OutcomeView::Aborted => "Aborted."@,
        OutcomeView::EmptyEdit => "Edited message is empty. Aborted."@,
        OutcomeView::CommitFailed => "git commit failed"@,
    }
}

impl Outcome {
    /// The process exit code of this outcome.
    pub fn exit_code(&self) -> (r: i32)
        ensures
            r == exit_code_of(self.view()),
    {
        match self {
            Outcome::Committed => 0,
            _ => 1,
        }
    }

    /// The text to report on the diagnostic stream; empty after a commit.
    pub fn notice(&self) -> (r: String)
        ensures
            r@ == notice_of(self.view()),
    {
        match self {
            Outcome::Committed => String::new(),
            Outcome::DiffFailed(e) => e.clone(),
            Outcome::NothingStaged => String::from_str("Nothing staged. Use git add first."),
            Outcome::UnstagedOnly(_) => String::from_str("Use 'git add' to stage changes."),
            Outcome::GenerationFailed(e) => e.describe(),
            Outcome::EmptyMessage => String::from_str("Failed to generate commit message."),
            Outcome::Aborted => String::from_str("Aborted."),
            Outcome::EmptyEdit => String::from_str("Edited message is empty. Aborted."),
            Outcome::CommitFailed => String::from_str("git commit failed"),
        }
    }
}

/// The actions of a run that starts in `ph` and receives `events` in order.
pub open spec fn run(ph: PhaseView, s: Strategy, events: Seq<Event>) -> Seq<ActionView>
    decreases events.len(),
{
    if events.len() == 0 {
        Seq::empty()
    } else {
        let (next, a) = transition(ph, s, events[0]);
        seq![a] + run(next, s, events.drop_first())
    }
}

/// How many commit messages a sequence of actions asks the model for.
pub open spec fn message_requests(actions: Seq<ActionView>) -> nat
    decreases actions.len(),
{
    if actions.len() == 0 {
        0
    } else {
        (if actions[0] is Generate { 1nat } else { 0nat }) + message_requests(actions.drop_first())
    }
}

/// How many times a sequence of actions calls the model service at all.
pub open spec fn generator_calls(actions: Seq<ActionView>) -> nat
    decreases actions.len(),
{
    if actions.len() == 0 {
        0
    } else {
        (if actions[0] is Generate || actions[0] is Summarize { 1nat } else { 0nat })
            + generator_calls(actions.drop_first())
    }
}

proof fn run_first(ph: PhaseView, s: Strategy, events: Seq<Event>)
    requires
        events.len() > 0,
    ensures
        run(ph, s, events)[0] == transition(ph, s, events[0]).1,
        run(ph, s, events).drop_first() == run(transition(ph, s, events[0]).0, s, events.drop_first()),
        run(ph, s, events).len() == events.len(),
    decreases events.len(),
{
    let next = transition(ph, s, events[0]).0;
    run_len(next, s, events.drop_first());
    assert(run(ph, s, events).drop_first() =~= run(next, s, events.drop_first()));
}

proof fn run_len(ph: PhaseView, s: Strategy, events: Seq<Event>)
    ensures
        run(ph, s, events).len() == events.len(),
    decreases events.len(),
{
    if events.len() > 0 {
        run_len(transition(ph, s, events[0]).0, s, events.drop_first());
    }
}

/// Bounds on the model calls left in a run, by the phase it is in.
proof fn calls_left(ph: PhaseView, s: Strategy, events: Seq<Event>)
    ensures
        message_requests(run(ph, s, events)) <= (if ph is Start || ph is AwaitStaged { 1nat } else { 0nat }),
        generator_calls(run(ph, s, events))
            <= (if ph is Start || ph is AwaitStaged || ph is AwaitUnstaged { 1nat } else { 0nat }),
    decreases events.len(),
{
    if events.len() > 0 {
        run_first(ph, s, events);
        calls_left(transition(ph, s, events[0]).0, s, events.drop_first());
    }
}

/// In any run, the model is asked for a commit message at most once, and the
/// service is called at most once in all: a failed request is not retried.
pub proof fn generator_called_at_most_once(s: Strategy, events: Seq<Event>)
    ensures
        message_requests(run(PhaseView::Start, s, events)) <= 1,
        generator_calls(run(PhaseView::Start, s, events)) <= 1,
{
    calls_left(PhaseView::Start, s, events);
}

/// A run whose staged diff is not blank asks the model for a commit message
/// exactly once, with that diff, and makes no other call to the service.
pub proof fn message_requested_once(s: Strategy, events: Seq<Event>, diff: String)
    requires
        events.len() >= 2,
        events[0] == Event::Begin,
        events[1] == Event::StagedDiff(Ok(diff)),
        !blank(diff@),
    ensures
        run(PhaseView::Start, s, events)[1] == ActionView::Generate(diff@),
        message_requests(run(PhaseView::Start, s, events)) == 1,
        generator_calls(run(PhaseView::Start, s, events)) == 1,
{
    run_first(PhaseView::Start, s, events);
    let rest = events.drop_first();
    run_first(PhaseView::AwaitStaged, s, rest);
    calls_left(PhaseView::AwaitMessage, s, rest.drop_first());
    let r = run(PhaseView::Start, s, events);
    let r1 = run(PhaseView::AwaitStaged, s, rest);
    assert(message_requests(r) == message_requests(r1));
    assert(generator_calls(r) == generator_calls(r1));
    assert(message_requests(r1) == 1 + message_requests(r1.drop_first()));
    assert(generator_calls(r1) == 1 + generator_calls(r1.drop_first()));
}

/// A run whose staged diff is blank never asks the model for a commit message:
/// it queries the unstaged diff next.
pub proof fn blank_staged_diff_checks_unstaged(s: Strategy, events: Seq<Event>, diff: String)
    requires
        events.len() >= 2,
        events[0] == Event::Begin,
        events[1] == Event::StagedDiff(Ok(diff)),
        blank(diff@),
    ensures
        run(PhaseView::Start, s, events)[1] == ActionView::FetchUnstaged,
        message_requests(run(PhaseView::Start, s, events)) == 0,
{
    run_first(PhaseView::Start, s, events);
    let rest = events.drop_first();
    run_first(PhaseView::AwaitStaged, s, rest);
    calls_left(PhaseView::AwaitUnstaged, s, rest.drop_first());
    let r = run(PhaseView::Start, s, events);
    let r1 = run(PhaseView::AwaitStaged, s, rest);
    assert(message_requests(r) == message_requests(r1));
    assert(message_requests(r1) == message_requests(r1.drop_first()));
}

proof fn commits_not_blank_from(ph: PhaseView, s: Strategy, events: Seq<Event>, i: int)
    requires
        phase_wf(ph),
        0 <= i < events.len(),
        run(ph, s, events)[i] is Commit,
    ensures
        !blank(run(ph, s, events)[i]->Commit_0),
    decreases events.len(),
{
    run_first(ph, s, events);
    match events[0] {
        Event::EditorClosed { contents, .. } => trim_idempotent(contents@),
        Event::InlineClosed(Some(t)) => trim_idempotent(t@),
        _ => {},
    }
    if i > 0 {
        let next = transition(ph, s, events[0]).0;
        assert(run(ph, s, events)[i] == run(next, s, events.drop_first())[i - 1]);
        commits_not_blank_from(next, s, events.drop_first(), i - 1);
    }
}

/// Whatever the operator does, with either strategy, every message handed to
/// the commit is non-empty once trimmed.
pub proof fn committed_message_never_blank(s: Strategy, events: Seq<Event>, i: int)
    requires
        0 <= i < events.len(),
        run(PhaseView::Start, s, events)[i] is Commit,
    ensures
        !blank(run(PhaseView::Start, s, events)[i]->Commit_0),
{
    commits_not_blank_from(PhaseView::Start, s, events, i);
}

} // verus!
