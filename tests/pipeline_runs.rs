use gy::generation::{interpret_reply, ReplyError};
use gy::pipeline::{Action, Event, Outcome, Pipeline, Strategy};

fn ok(s: &str) -> Result<String, String> {
    Ok(s.to_string())
}

fn commit_text(a: &Action) -> Option<String> {
    match a {
        Action::Commit(m) => Some(m.clone()),
        _ => None,
    }
}

fn outcome(a: Action) -> Outcome {
    match a {
        Action::Finish(o) => o,
        _ => panic!("the run should be over"),
    }
}

fn start(strategy: Strategy) -> Pipeline {
    let mut p = Pipeline::new(strategy);
    assert!(matches!(p.step(Event::Begin), Action::FetchStaged));
    p
}

#[test]
fn unstaged_only_prints_summary_and_exits_one() {
    let mut p = start(Strategy::PromptAndBranch);
    assert!(matches!(p.step(Event::StagedDiff(ok(""))), Action::FetchUnstaged));
    match p.step(Event::UnstagedDiff(ok("+line"))) {
        Action::Summarize(d) => assert_eq!(d, "+line"),
        _ => panic!("the unstaged diff should be summarised"),
    }
    let o = outcome(p.step(Event::Reply(Ok("feat: add line".to_string()))));
    assert!(matches!(&o, Outcome::UnstagedOnly(Some(s)) if s == "feat: add line"));
    assert_eq!(o.exit_code(), 1);
    assert_eq!(o.notice(), "Use 'git add' to stage changes.");
    assert!(p.is_finished());
    assert!(matches!(p.step(Event::CommitDone(true)), Action::Idle));
}

#[test]
fn unstaged_summary_failure_still_exits_one() {
    let mut p = start(Strategy::PromptAndBranch);
    p.step(Event::StagedDiff(ok("\n")));
    p.step(Event::UnstagedDiff(ok("+line")));
    let o = outcome(p.step(Event::Reply(Err(ReplyError::Empty))));
    assert!(matches!(o, Outcome::UnstagedOnly(None)));
    assert_eq!(o.exit_code(), 1);
}

#[test]
fn nothing_staged_nor_unstaged() {
    let mut p = start(Strategy::PromptAndBranch);
    p.step(Event::StagedDiff(ok("   ")));
    let o = outcome(p.step(Event::UnstagedDiff(ok(" \n\t"))));
    assert!(matches!(o, Outcome::NothingStaged));
    assert_eq!(o.notice(), "Nothing staged. Use git add first.");
    assert_eq!(o.exit_code(), 1);
}

#[test]
fn unstaged_query_failure_is_nothing_staged() {
    let mut p = start(Strategy::PromptAndBranch);
    p.step(Event::StagedDiff(ok("")));
    let o = outcome(p.step(Event::UnstagedDiff(Err("fatal".to_string()))));
    assert!(matches!(o, Outcome::NothingStaged));
}

#[test]
fn staged_query_failure_reports_error_text() {
    let mut p = start(Strategy::PromptAndBranch);
    let o = outcome(p.step(Event::StagedDiff(Err("fatal: not a git repository".to_string()))));
    assert_eq!(o.notice(), "fatal: not a git repository");
    assert_eq!(o.exit_code(), 1);
}

#[test]
fn blank_staged_diff_never_requests_message() {
    let mut p = start(Strategy::Inline);
    let a = p.step(Event::StagedDiff(ok("  \n \t\n")));
    assert!(matches!(a, Action::FetchUnstaged));
}

#[test]
fn accepted_message_is_committed_verbatim() {
    let mut p = start(Strategy::PromptAndBranch);
    match p.step(Event::StagedDiff(ok("+foo"))) {
        Action::Generate(d) => assert_eq!(d, "+foo"),
        _ => panic!("a message should be requested"),
    }
    match p.step(Event::Reply(Ok("feat: add foo".to_string()))) {
        Action::AskChoice(m) => assert_eq!(m, "feat: add foo"),
        _ => panic!("the operator should be asked"),
    }
    let a = p.step(Event::Answer("y\n".to_string()));
    assert_eq!(commit_text(&a), Some("feat: add foo".to_string()));
    let o = outcome(p.step(Event::CommitDone(true)));
    assert!(matches!(o, Outcome::Committed));
    assert_eq!(o.exit_code(), 0);
    assert_eq!(o.notice(), "");
}

#[test]
fn structured_service_error_ends_run() {
    let body = r#"{"error":{"message":"overloaded"}}"#;
    let reply = interpret_reply(529, "529 <unknown status code>", body);
    let mut p = start(Strategy::PromptAndBranch);
    p.step(Event::StagedDiff(ok("+foo")));
    let o = outcome(p.step(Event::Reply(reply)));
    assert_eq!(o.exit_code(), 1);
    assert!(o.notice().contains("overloaded"));
    assert_eq!(o.notice(), "API error: overloaded");
}

#[test]
fn failed_generation_is_not_retried() {
    let mut p = start(Strategy::PromptAndBranch);
    p.step(Event::StagedDiff(ok("+foo")));
    let a = p.step(Event::Reply(Err(ReplyError::Transport("connection refused".to_string()))));
    let o = outcome(a);
    assert_eq!(o.notice(), "API request failed: connection refused");
    assert!(matches!(p.step(Event::Reply(Ok("x".to_string()))), Action::Idle));
}

#[test]
fn blank_generated_message_is_refused() {
    let mut p = start(Strategy::PromptAndBranch);
    p.step(Event::StagedDiff(ok("+foo")));
    let o = outcome(p.step(Event::Reply(Ok("  \n".to_string()))));
    assert!(matches!(o, Outcome::EmptyMessage));
    assert_eq!(o.notice(), "Failed to generate commit message.");
}

#[test]
fn failed_editor_keeps_generated_message() {
    let mut p = start(Strategy::PromptAndBranch);
    p.step(Event::StagedDiff(ok("+foo")));
    p.step(Event::Reply(Ok("feat: add foo".to_string())));
    match p.step(Event::Answer("e".to_string())) {
        Action::OpenEditor(m) => assert_eq!(m, "feat: add foo"),
        _ => panic!("the editor should open"),
    }
    let a = p.step(Event::EditorClosed { succeeded: false, contents: "junk".to_string() });
    assert_eq!(commit_text(&a), Some("feat: add foo".to_string()));
    assert_eq!(outcome(p.step(Event::CommitDone(true))).exit_code(), 0);
}

#[test]
fn edited_message_is_trimmed() {
    let mut p = start(Strategy::PromptAndBranch);
    p.step(Event::StagedDiff(ok("+foo")));
    p.step(Event::Reply(Ok("feat: add foo".to_string())));
    p.step(Event::Answer("EDIT".to_string()));
    let a = p.step(Event::EditorClosed { succeeded: true, contents: "fix: repair foo\n\n".to_string() });
    assert_eq!(commit_text(&a), Some("fix: repair foo".to_string()));
}

#[test]
fn edited_to_blank_is_refused() {
    let mut p = start(Strategy::PromptAndBranch);
    p.step(Event::StagedDiff(ok("+foo")));
    p.step(Event::Reply(Ok("feat: add foo".to_string())));
    p.step(Event::Answer("e".to_string()));
    let o = outcome(p.step(Event::EditorClosed { succeeded: true, contents: " \n".to_string() }));
    assert!(matches!(o, Outcome::EmptyEdit));
    assert_eq!(o.exit_code(), 1);
}

#[test]
fn rejection_and_unknown_answers_abort() {
    for answer in ["n", "no", "NO", "maybe", "", "yess"] {
        let mut p = start(Strategy::PromptAndBranch);
        p.step(Event::StagedDiff(ok("+foo")));
        p.step(Event::Reply(Ok("feat: add foo".to_string())));
        let o = outcome(p.step(Event::Answer(answer.to_string())));
        assert!(matches!(o, Outcome::Aborted));
        assert_eq!(o.notice(), "Aborted.");
        assert_eq!(o.exit_code(), 1);
    }
}

#[test]
fn inline_strategy_confirm_cancel_and_blank() {
    let mut p = start(Strategy::Inline);
    assert_eq!(p.strategy(), Strategy::Inline);
    p.step(Event::StagedDiff(ok("+foo")));
    match p.step(Event::Reply(Ok("feat: add foo".to_string()))) {
        Action::EditInline(m) => assert_eq!(m, "feat: add foo"),
        _ => panic!("the line editor should open"),
    }
    let a = p.step(Event::InlineClosed(Some(" feat: add foo bar ".to_string())));
    assert_eq!(commit_text(&a), Some("feat: add foo bar".to_string()));

    let mut p = start(Strategy::Inline);
    p.step(Event::StagedDiff(ok("+foo")));
    p.step(Event::Reply(Ok("feat: add foo".to_string())));
    assert!(matches!(outcome(p.step(Event::InlineClosed(None))), Outcome::Aborted));

    let mut p = start(Strategy::Inline);
    p.step(Event::StagedDiff(ok("+foo")));
    p.step(Event::Reply(Ok("feat: add foo".to_string())));
    assert!(matches!(outcome(p.step(Event::InlineClosed(Some("  ".to_string())))), Outcome::EmptyEdit));
}

#[test]
fn failed_commit_exits_one() {
    let mut p = start(Strategy::PromptAndBranch);
    p.step(Event::StagedDiff(ok("+foo")));
    p.step(Event::Reply(Ok("feat: add foo".to_string())));
    p.step(Event::Answer("yes".to_string()));
    let o = outcome(p.step(Event::CommitDone(false)));
    assert!(matches!(o, Outcome::CommitFailed));
    assert_eq!(o.notice(), "git commit failed");
    assert_eq!(o.exit_code(), 1);
}

#[test]
fn out_of_order_events_are_ignored() {
    let mut p = Pipeline::new(Strategy::PromptAndBranch);
    assert!(matches!(p.step(Event::CommitDone(true)), Action::Idle));
    assert!(!p.is_finished());
    assert!(matches!(p.step(Event::Begin), Action::FetchStaged));
}
