use commitgpt::{
    Action, Args, Cli, CompletionRequest, Config, Error, Event, Message, Model, Pipeline, Reply,
    Role, State,
};

fn strings(items: &[&str]) -> Vec<String> {
    items.iter().map(|item| item.to_string()).collect()
}

fn cli() -> Cli {
    Cli::new(
        Config {
            api_key: "k".to_string(),
            context_prefix: "be brief".to_string(),
            suggestions: 2,
            ignore_space: true,
            max_tokens: 400,
            model: Model::GPT4,
        },
        Args {
            suggestions: None,
            ignore_space: None,
            max_tokens: None,
            model: None,
            path: strings(&["src"]),
            reason: "because".to_string(),
        },
    )
}

fn candidates() -> Vec<String> {
    strings(&["feat: add x\n\nbody text", "fix: y"])
}

fn diff_exited(text: &str) -> Event {
    Event::DiffExited { success: true, stdout: text.as_bytes().to_vec() }
}

/// A run that has shown the candidates to the operator.
fn selecting() -> Pipeline {
    let (mut run, _) = cli().run();
    assert!(matches!(run.step(diff_exited("+x")), Some(Action::Fetch(_))));
    assert!(matches!(
        run.step(Event::Replied(Reply::Choices(candidates()))),
        Some(Action::Prompt { .. })
    ));
    run
}

/// What the outside world answers in a scripted run.
struct Script {
    diff: Event,
    reply: Reply,
    picks: Vec<Option<usize>>,
    commits: Vec<bool>,
}

/// What a scripted run did.
struct Outcome {
    result: Result<(), Error>,
    state: State,
    diffs: usize,
    fetches: usize,
    prompts: Vec<Vec<String>>,
    commits: Vec<Vec<String>>,
}

fn drive(cli: Cli, script: Script) -> Outcome {
    let Script { diff, reply, picks, commits } = script;
    let mut diff = Some(diff);
    let mut reply = Some(reply);
    let mut picks = picks.into_iter();
    let mut exits = commits.into_iter();
    let mut outcome = Outcome {
        result: Ok(()),
        state: State::Extracting,
        diffs: 0,
        fetches: 0,
        prompts: Vec::new(),
        commits: Vec::new(),
    };
    let (mut run, mut action) = cli.run();
    loop {
        let event = match action {
            Action::RunDiff(_) => {
                outcome.diffs += 1;
                diff.take().expect("the diff is asked for once")
            }
            Action::Fetch(_) => {
                outcome.fetches += 1;
                Event::Replied(reply.take().expect("the service is asked once"))
            }
            Action::Prompt { labels, highlighted } => {
                assert_eq!(highlighted, 0);
                outcome.prompts.push(labels);
                match picks.next().expect("a pick for every prompt") {
                    Some(index) => Event::Picked(index),
                    None => Event::PromptClosed,
                }
            }
            Action::RunCommit(arguments) => {
                outcome.commits.push(arguments);
                Event::CommitExited { success: exits.next().expect("an exit for every commit") }
            }
            Action::Finish(result) => {
                outcome.result = result;
                outcome.state = run.state();
                return outcome;
            }
        };
        action = run.step(event).expect("the state waits for the event");
    }
}

#[test]
fn run_begins_with_the_diff() {
    let (run, action) = cli().run();
    assert_eq!(run.state(), State::Extracting);
    assert!(run.candidates().is_empty());
    assert_eq!(run.cli(), &cli());
    assert_eq!(
        action,
        Action::RunDiff(strings(&[
            "diff",
            "--staged",
            "--ignore-space-change",
            "--ignore-blank-lines",
            "--",
            "src"
        ]))
    );
}

#[test]
fn an_empty_diff_ends_the_run_before_any_request() {
    let outcome = drive(
        cli(),
        Script {
            diff: diff_exited(""),
            reply: Reply::Choices(candidates()),
            picks: Vec::new(),
            commits: Vec::new(),
        },
    );
    assert_eq!(outcome.result, Err(Error::EmptyDiff));
    assert_eq!(outcome.state, State::Failed);
    assert_eq!(outcome.diffs, 1);
    assert_eq!(outcome.fetches, 0);
    assert!(outcome.prompts.is_empty());
    assert!(outcome.commits.is_empty());
}

#[test]
fn after_an_empty_diff_nothing_leads_to_a_request() {
    let (mut run, _) = cli().run();
    assert_eq!(run.step(diff_exited("")), Some(Action::Finish(Err(Error::EmptyDiff))));
    assert_eq!(run.state(), State::Failed);
    assert_eq!(run.step(diff_exited("+x")), None);
    assert_eq!(run.step(Event::Replied(Reply::Choices(candidates()))), None);
    assert_eq!(run.step(Event::Picked(0)), None);
    assert_eq!(run.step(Event::CommitExited { success: true }), None);
    assert_eq!(run.state(), State::Failed);
}

#[test]
fn a_diff_leads_to_the_request() {
    let (mut run, _) = cli().run();
    let action = run.step(diff_exited("+x\n"));
    assert_eq!(
        action,
        Some(Action::Fetch(CompletionRequest {
            model: "gpt-4".to_string(),
            n: 2,
            max_tokens: 400,
            messages: vec![
                Message { role: Role::System, content: "be brief".to_string() },
                Message {
                    role: Role::User,
                    content: "\nWhy: because\nWhat: ```diff\n+x\n\n```\n".to_string(),
                },
            ],
        }))
    );
    assert_eq!(run.state(), State::Fetching);
}

#[test]
fn a_failed_diff_ends_the_run() {
    let (mut run, _) = cli().run();
    assert_eq!(
        run.step(Event::DiffExited { success: false, stdout: b"+x".to_vec() }),
        Some(Action::Finish(Err(Error::GitDiff)))
    );
    assert_eq!(run.state(), State::Failed);
}

#[test]
fn a_diff_that_is_not_utf8_ends_the_run() {
    let (mut run, _) = cli().run();
    let action = run.step(Event::DiffExited { success: true, stdout: vec![b'+', 0xff] });
    assert!(matches!(action, Some(Action::Finish(Err(Error::FromUtf8(_))))));
    assert_eq!(run.state(), State::Failed);
}

#[test]
fn a_tool_that_does_not_start_ends_the_run() {
    let (mut run, _) = cli().run();
    assert_eq!(
        run.step(Event::CommandFailed("No such file or directory".to_string())),
        Some(Action::Finish(Err(Error::CommandError("No such file or directory".to_string()))))
    );
    assert_eq!(run.state(), State::Failed);
}

#[test]
fn a_failure_of_the_service_ends_the_run_with_its_body() {
    let body = "{\"error\":{\"message\":\"Incorrect API key provided\"}}";
    let outcome = drive(
        cli(),
        Script {
            diff: diff_exited("+x"),
            reply: Reply::Failure(body.to_string()),
            picks: Vec::new(),
            commits: Vec::new(),
        },
    );
    assert_eq!(outcome.result, Err(Error::FetchData(body.to_string())));
    assert_eq!(outcome.state, State::Failed);
    assert_eq!(outcome.fetches, 1);
    assert!(outcome.prompts.is_empty());
}

#[test]
fn n_choices_give_n_labels() {
    for n in 1..=10usize {
        let texts: Vec<String> = (0..n).map(|i| format!("feat: {i}\n\nbody")).collect();
        let mut file = cli();
        file.config.suggestions = n as u8;
        let (mut run, _) = file.run();
        match run.step(diff_exited("+x")) {
            Some(Action::Fetch(wanted)) => assert_eq!(wanted.n as usize, n),
            other => panic!("unexpected action {other:?}"),
        }
        match run.step(Event::Replied(Reply::Choices(texts.clone()))) {
            Some(Action::Prompt { labels: shown, highlighted }) => {
                assert_eq!(highlighted, 0);
                assert_eq!(shown.len(), n);
                assert_eq!(shown[0], "feat: 0");
                assert_eq!(shown[n - 1], format!("feat: {}", n - 1));
            }
            other => panic!("unexpected action {other:?}"),
        }
        assert_eq!(run.state(), State::Selecting);
        assert_eq!(run.candidates(), &texts);
    }
}

#[test]
fn the_prompt_shows_first_lines() {
    let (mut run, _) = cli().run();
    run.step(diff_exited("+x"));
    assert_eq!(
        run.step(Event::Replied(Reply::Choices(candidates()))),
        Some(Action::Prompt { labels: strings(&["feat: add x", "fix: y"]), highlighted: 0 })
    );
}

#[test]
fn a_pick_commits_the_whole_text() {
    let mut run = selecting();
    assert_eq!(
        run.step(Event::Picked(0)),
        Some(Action::RunCommit(strings(&[
            "commit",
            "--message",
            "feat: add x\n\nbody text",
            "--edit"
        ])))
    );
    assert_eq!(run.state(), State::Committing);
    assert_eq!(run.step(Event::CommitExited { success: true }), Some(Action::Finish(Ok(()))));
    assert_eq!(run.state(), State::Done);
}

#[test]
fn closing_the_prompt_is_success_without_a_commit() {
    let outcome = drive(
        cli(),
        Script {
            diff: diff_exited("+x"),
            reply: Reply::Choices(candidates()),
            picks: vec![None],
            commits: Vec::new(),
        },
    );
    assert_eq!(outcome.result, Ok(()));
    assert_eq!(outcome.state, State::Cancelled);
    assert!(outcome.commits.is_empty());
}

#[test]
fn a_failed_commit_is_retried_until_done() {
    let outcome = drive(
        cli(),
        Script {
            diff: diff_exited("+x"),
            reply: Reply::Choices(candidates()),
            picks: vec![Some(0), Some(1)],
            commits: vec![false, true],
        },
    );
    assert_eq!(outcome.result, Ok(()));
    assert_eq!(outcome.state, State::Done);
    assert_eq!(outcome.fetches, 1);
    assert_eq!(
        outcome.prompts,
        vec![strings(&["feat: add x", "fix: y"]), strings(&["feat: add x", "fix: y"])]
    );
    assert_eq!(
        outcome.commits,
        vec![
            strings(&["commit", "--message", "feat: add x\n\nbody text", "--edit"]),
            strings(&["commit", "--message", "fix: y", "--edit"]),
        ]
    );
}

#[test]
fn a_failed_commit_returns_to_the_same_candidates() {
    let mut run = selecting();
    run.step(Event::Picked(1));
    assert_eq!(
        run.step(Event::CommitExited { success: false }),
        Some(Action::Prompt { labels: strings(&["feat: add x", "fix: y"]), highlighted: 0 })
    );
    assert_eq!(run.state(), State::Selecting);
    assert_eq!(run.candidates(), &candidates());
}

#[test]
fn a_commit_that_does_not_start_is_retried_too() {
    let mut run = selecting();
    run.step(Event::Picked(1));
    assert_eq!(
        run.step(Event::CommandFailed("Permission denied".to_string())),
        Some(Action::Prompt { labels: strings(&["feat: add x", "fix: y"]), highlighted: 0 })
    );
    assert_eq!(run.state(), State::Selecting);
}

#[test]
fn cancelling_after_a_failed_commit_is_success() {
    let outcome = drive(
        cli(),
        Script {
            diff: diff_exited("+x"),
            reply: Reply::Choices(candidates()),
            picks: vec![Some(1), Some(1), None],
            commits: vec![false, false],
        },
    );
    assert_eq!(outcome.result, Ok(()));
    assert_eq!(outcome.state, State::Cancelled);
    assert_eq!(outcome.commits.len(), 2);
    assert_eq!(outcome.prompts.len(), 3);
}

#[test]
fn a_pick_without_a_candidate_ends_the_run() {
    let mut run = selecting();
    assert_eq!(run.step(Event::Picked(2)), Some(Action::Finish(Err(Error::EmptySelection))));
    assert_eq!(run.state(), State::Failed);
    let mut run = selecting();
    assert_eq!(
        run.step(Event::Picked(usize::MAX)),
        Some(Action::Finish(Err(Error::EmptySelection)))
    );
}

#[test]
fn no_choices_give_an_empty_prompt() {
    let (mut run, _) = cli().run();
    run.step(diff_exited("+x"));
    assert_eq!(
        run.step(Event::Replied(Reply::Choices(Vec::new()))),
        Some(Action::Prompt { labels: Vec::new(), highlighted: 0 })
    );
    assert_eq!(run.step(Event::Picked(0)), Some(Action::Finish(Err(Error::EmptySelection))));
}

#[test]
fn events_out_of_turn_are_ignored() {
    let (mut run, _) = cli().run();
    assert_eq!(run.step(Event::Picked(0)), None);
    assert_eq!(run.step(Event::PromptClosed), None);
    assert_eq!(run.step(Event::Replied(Reply::Choices(candidates()))), None);
    assert_eq!(run.step(Event::CommitExited { success: true }), None);
    assert_eq!(run.state(), State::Extracting);
    assert!(run.candidates().is_empty());

    run.step(diff_exited("+x"));
    assert_eq!(run.step(diff_exited("+y")), None);
    assert_eq!(run.step(Event::CommandFailed("late".to_string())), None);
    assert_eq!(run.step(Event::Picked(0)), None);
    assert_eq!(run.state(), State::Fetching);

    let mut run = selecting();
    assert_eq!(run.step(Event::CommitExited { success: true }), None);
    assert_eq!(run.step(Event::CommandFailed("late".to_string())), None);
    assert_eq!(run.step(Event::Replied(Reply::Failure("late".to_string()))), None);
    assert_eq!(run.state(), State::Selecting);
    assert_eq!(run.candidates(), &candidates());

    run.step(Event::Picked(0));
    assert_eq!(run.step(Event::Picked(1)), None);
    assert_eq!(run.step(Event::PromptClosed), None);
    assert_eq!(run.state(), State::Committing);
}

#[test]
fn a_finished_run_stays_finished() {
    let mut run = selecting();
    run.step(Event::Picked(0));
    run.step(Event::CommitExited { success: true });
    assert_eq!(run.state(), State::Done);
    assert_eq!(run.step(Event::CommitExited { success: false }), None);
    assert_eq!(run.step(Event::Picked(1)), None);
    assert_eq!(run.state(), State::Done);

    let mut run = selecting();
    run.step(Event::PromptClosed);
    assert_eq!(run.state(), State::Cancelled);
    assert_eq!(run.step(Event::Picked(0)), None);
    assert_eq!(run.state(), State::Cancelled);
}

#[test]
fn terminal_states() {
    assert!(State::Done.is_terminal());
    assert!(State::Cancelled.is_terminal());
    assert!(State::Failed.is_terminal());
    assert!(!State::Extracting.is_terminal());
    assert!(!State::Fetching.is_terminal());
    assert!(!State::Selecting.is_terminal());
    assert!(!State::Committing.is_terminal());
}
