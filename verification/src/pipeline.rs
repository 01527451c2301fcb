//! The run of one invocation as a state machine.
//!
//! The machine never touches the outside world. It names what is to be
//! done next, the caller does it and reports what happened, and the
//! machine decides again. A report that the current state does not wait
//! for changes nothing and asks for nothing.

use vstd::prelude::*;

use crate::cli::{Cli, CliView};
use crate::commit::{commit_arguments, commit_arguments_of};
use crate::completion::{
    read_reply, reply_outcome, CompletionRequest, Reply, ReplyView, RequestView,
};
use crate::diff::{diff_outcome, read_diff};
use crate::error::{Error, ErrorView};
use crate::selection::{labels, labels_of};

verus! {

/// Where a run stands.
#[derive(Debug, Clone, Copy, PartialEq, Eq, Structural)]
pub enum State {
    /// The diff command has been asked for.
    Extracting,
    /// The completion request has been asked for.
    Fetching,
    /// The operator is choosing among the candidates.
    Selecting,
    /// The commit command has been asked for.
    Committing,
    /// A commit was made.
    Done,
    /// The operator closed the prompt; no commit was made.
    Cancelled,
    /// The run ended with an error.
    Failed,
}

impl State {
    /// Whether the run is over.
    pub open spec fn terminal(self) -> bool {
        self is Done || self is Cancelled || self is Failed
    }

    /// Whether the run is over.
    pub fn is_terminal(&self) -> (over: bool)
        ensures
            over == self.terminal(),
    {
        match self {
            State::Done | State::Cancelled | State::Failed => true,
            _ => false,
        }
    }
}

/// What the caller reports back.
#[derive(Debug, PartialEq, Eq)]
pub enum Event {
    /// The diff command ran: how it exited and what it printed.
    DiffExited { success: bool, stdout: Vec<u8> },
    /// The version-control tool could not be started; the text says why.
    CommandFailed(String),
    /// The completion service answered.
    Replied(Reply),
    /// The operator picked the entry with this index.
    Picked(usize),
    /// The operator closed the prompt without picking.
    PromptClosed,
    /// The commit command ran: how it exited.
    CommitExited { success: bool },
}

/// What the caller is to do next.
#[derive(Debug, PartialEq, Eq)]
pub enum Action {
    /// Run the version-control tool with these arguments and capture its
    /// output.
    RunDiff(Vec<String>),
    /// Send this request to the completion service.
    Fetch(CompletionRequest),
    /// Show these labels as a single-choice list, with the entry at
    /// `highlighted` marked as the one that a bare confirmation picks.
    Prompt { labels: Vec<String>, highlighted: usize },
    /// Run the version-control tool with these arguments.
    RunCommit(Vec<String>),
    /// Stop, with success or with this error.
    Finish(Result<(), Error>),
}

/// An event as a mathematical value.
pub enum EventView {
    DiffExited { success: bool, stdout: Seq<u8> },
    CommandFailed(Seq<char>),
    Replied(ReplyView),
    Picked(usize),
    PromptClosed,
    CommitExited { success: bool },
}

/// An action as a mathematical value.
pub enum ActionView {
    RunDiff(Seq<Seq<char>>),
    Fetch(RequestView),
    Prompt { labels: Seq<Seq<char>>, highlighted: usize },
    RunCommit(Seq<Seq<char>>),
    Finish(Result<(), ErrorView>),
}

impl View for Event {
    type V = EventView;

    open spec fn view(&self) -> EventView {
        match self {
            Event::DiffExited { success, stdout } => EventView::DiffExited {
                success: *success,
                stdout: stdout@,
            },
            Event::CommandFailed(text) => EventView::CommandFailed(text@),
            Event::Replied(reply) => EventView::Replied(reply@),
            Event::Picked(index) => EventView::Picked(*index),
            Event::PromptClosed => EventView::PromptClosed,
            Event::CommitExited { success } => EventView::CommitExited { success: *success },
        }
    }
}

impl View for Action {
    type V = ActionView;

    open spec fn view(&self) -> ActionView {
        match self {
            Action::RunDiff(arguments) => ActionView::RunDiff(arguments.deep_view()),
            Action::Fetch(wanted) => ActionView::Fetch(wanted@),
            Action::Prompt { labels, highlighted } => ActionView::Prompt {
                labels: labels.deep_view(),
                highlighted: *highlighted,
            },
            Action::RunCommit(arguments) => ActionView::RunCommit(arguments.deep_view()),
            Action::Finish(Ok(_)) => ActionView::Finish(Ok(())),
            Action::Finish(Err(error)) => ActionView::Finish(Err(error@)),
        }
    }
}

/// The view of an action that may be absent.
pub open spec fn action_view(action: Option<Action>) -> Option<ActionView> {
    match action {
        Some(action) => Some(action@),
        None => None,
    }
}

/// A run: the invocation, the state, and the candidates once they are
/// there.
#[derive(Debug)]
pub struct Pipeline {
    cli: Cli,
    state: State,
    candidates: Vec<String>,
}

/// A run as a mathematical value.
pub struct PipelineView {
    pub cli: CliView,
    pub state: State,
    pub candidates: Seq<Seq<char>>,
}

impl PipelineView {
    /// There are no candidates before the service has answered.
    pub open spec fn wf(self) -> bool {
        self.state is Extracting || self.state is Fetching ==> self.candidates.len() == 0
    }

    /// The same run in another state.
    pub open spec fn at(self, state: State) -> PipelineView {
        PipelineView { state, ..self }
    }

    /// A run that ends here with an error.
    pub open spec fn fail(self, error: ErrorView) -> (PipelineView, Option<ActionView>) {
        (self.at(State::Failed), Some(ActionView::Finish(Err(error))))
    }

    /// The prompt for the candidates of the run: their labels, the first
    /// one highlighted.
    pub open spec fn prompt(self) -> ActionView {
        ActionView::Prompt { labels: labels_of(self.candidates), highlighted: 0 }
    }

    /// A run that goes back to the operator with the candidates it has.
    pub open spec fn ask(self) -> (PipelineView, Option<ActionView>) {
        (self.at(State::Selecting), Some(self.prompt()))
    }
}

/// The first state of a run and the action it begins with.
pub open spec fn begin(cli: CliView) -> (PipelineView, ActionView) {
    (
        PipelineView { cli, state: State::Extracting, candidates: Seq::empty() },
        ActionView::RunDiff(cli.diff_arguments()),
    )
}

/// The transition table: the state after an event, and the action that
/// the event leads to if it leads to one.
///
/// - While extracting: a diff that cannot be had, for whatever reason, ends
///   the run with the error that says so, and so does a diff that is empty.
///   Any other diff goes into the request, and the run is fetching.
/// - While fetching: a failure of the service ends the run with the body as
///   it came. Choices become the candidates, and the operator is asked.
/// - While selecting: a pick that names a candidate starts the commit with
///   its whole text, one that names none ends the run with an error, and a
///   closed prompt ends it without one.
/// - While committing: success ends the run. Anything else brings the
///   operator back to the same candidates.
/// - Everything else is ignored.
pub open spec fn transition(run: PipelineView, event: EventView) -> (
    PipelineView,
    Option<ActionView>,
) {
    match (run.state, event) {
        (State::Extracting, EventView::DiffExited { success, stdout }) => match diff_outcome(
            success,
            stdout,
        ) {
            Err(error) => run.fail(error),
            Ok(diff) => if diff.len() == 0 {
                run.fail(ErrorView::EmptyDiff)
            } else {
                (run.at(State::Fetching), Some(ActionView::Fetch(run.cli.request(diff))))
            },
        },
        (State::Extracting, EventView::CommandFailed(text)) => run.fail(
            ErrorView::CommandError(text),
        ),
        (State::Fetching, EventView::Replied(reply)) => match reply_outcome(reply) {
            Err(error) => run.fail(error),
            Ok(texts) => (PipelineView { candidates: texts, ..run }).ask(),
        },
        (State::Selecting, EventView::Picked(index)) => if index < run.candidates.len() {
            (
                run.at(State::Committing),
                Some(ActionView::RunCommit(commit_arguments_of(run.candidates[index as int]))),
            )
        } else {
            run.fail(ErrorView::EmptySelection)
        },
        (State::Selecting, EventView::PromptClosed) => (
            run.at(State::Cancelled),
            Some(ActionView::Finish(Ok(()))),
        ),
        (State::Committing, EventView::CommitExited { success }) => if success {
            (run.at(State::Done), Some(ActionView::Finish(Ok(()))))
        } else {
            run.ask()
        },
        (State::Committing, EventView::CommandFailed(_)) => run.ask(),
        _ => (run, None),
    }
}

impl View for Pipeline {
    type V = PipelineView;

    closed spec fn view(&self) -> PipelineView {
        PipelineView {
            cli: self.cli@,
            state: self.state,
            candidates: self.candidates.deep_view(),
        }
    }
}

impl Pipeline {
    #[verifier::type_invariant]
    spec fn inv(self) -> bool {
        self@.wf()
    }
}

impl Cli {
    /// Begins the run of this invocation: the machine waits for the diff,
    /// and the first thing to do is to ask for it.
    pub fn run(self) -> (started: (Pipeline, Action))
        ensures
            (started.0@, started.1@) == begin(self@),
    {
        let arguments = self.diff_arguments();
        let run = Pipeline { cli: self, state: State::Extracting, candidates: Vec::new() };
        assert(run.candidates.deep_view() =~= Seq::<Seq<char>>::empty());
        (run, Action::RunDiff(arguments))
    }
}

impl Pipeline {
    /// Where the run stands.
    pub fn state(&self) -> (state: State)
        ensures
            state == self@.state,
            self@.wf(),
    {
        proof {
            use_type_invariant(self);
        }
        self.state
    }

    /// The invocation that is being run.
    pub fn cli(&self) -> (cli: &Cli)
        ensures
            cli@ == self@.cli,
    {
        &self.cli
    }

    /// The candidates of the run: none before the service has answered.
    pub fn candidates(&self) -> (texts: &Vec<String>)
        ensures
            texts.deep_view() == self@.candidates,
            self@.wf(),
    {
        proof {
            use_type_invariant(self);
        }
        &self.candidates
    }

    fn fail(&mut self, error: Error) -> (action: Option<Action>)
        ensures
            (final(self)@, action_view(action)) == old(self)@.fail(error@),
    {
        self.state = State::Failed;
        Some(Action::Finish(Err(error)))
    }

    fn ask(&mut self) -> (action: Option<Action>)
        ensures
            (final(self)@, action_view(action)) == old(self)@.ask(),
    {
        self.state = State::Selecting;
        Some(Action::Prompt { labels: labels(&self.candidates), highlighted: 0 })
    }

    /// Takes the report of what happened and decides what is next. The
    /// result is `None` where the report is not one that the state waits
    /// for; nothing changes then.
    pub fn step(&mut self, event: Event) -> (action: Option<Action>)
        ensures
            (final(self)@, action_view(action)) == transition(old(self)@, event@),
    {
        proof {
            use_type_invariant(&*self);
        }
        match (self.state, event) {
            (State::Extracting, Event::DiffExited { success, stdout }) => {
                match read_diff(success, stdout) {
                    Err(error) => self.fail(error),
                    Ok(diff) => {
                        if diff.as_str().is_empty() {
                            self.fail(Error::EmptyDiff)
                        } else {
                            self.state = State::Fetching;
                            Some(Action::Fetch(self.cli.request(diff)))
                        }
                    },
                }
            },
            (State::Extracting, Event::CommandFailed(text)) => self.fail(
                Error::CommandError(text),
            ),
            (State::Fetching, Event::Replied(reply)) => {
                match read_reply(reply) {
                    Err(error) => self.fail(error),
                    Ok(texts) => {
                        self.state = State::Selecting;
                        self.candidates = texts;
                        self.ask()
                    },
                }
            },
            (State::Selecting, Event::Picked(index)) => {
                if index < self.candidates.len() {
                    self.state = State::Committing;
                    Some(Action::RunCommit(commit_arguments(self.candidates[index].as_str())))
                } else {
                    self.fail(Error::EmptySelection)
                }
            },
            (State::Selecting, Event::PromptClosed) => {
                self.state = State::Cancelled;
                Some(Action::Finish(Ok(())))
            },
            (State::Committing, Event::CommitExited { success }) => {
                if success {
                    self.state = State::Done;
                    Some(Action::Finish(Ok(())))
                } else {
                    self.ask()
                }
            },
            (State::Committing, Event::CommandFailed(_)) => self.ask(),
            _ => None,
        }
    }
}

/// Where a run stands after a sequence of events, and the actions that
/// the events led to, in their order.
pub open spec fn after(run: PipelineView, events: Seq<EventView>) -> (
    PipelineView,
    Seq<ActionView>,
)
    decreases events.len(),
{
    if events.len() == 0 {
        (run, Seq::empty())
    } else {
        let (next, action) = transition(run, events.first());
        let (last, actions) = after(next, events.drop_first());
        (
            last,
            match action {
                Some(action) => seq![action] + actions,
                None => actions,
            },
        )
    }
}

/// The first event of a sequence is handled by the transition table, and
/// the rest goes on from the state it leaves.
pub proof fn lemma_after_first(run: PipelineView, event: EventView, rest: Seq<EventView>)
    ensures
        after(run, Seq::empty()) == (run, Seq::<ActionView>::empty()),
        after(run, seq![event] + rest) == ({
            let (next, action) = transition(run, event);
            let (last, actions) = after(next, rest);
            (
                last,
                match action {
                    Some(action) => seq![action] + actions,
                    None => actions,
                },
            )
        }),
{
    let events = seq![event] + rest;
    assert(events.drop_first() =~= rest);
}

/// Once a run is over, no event changes it or leads to an action.
pub proof fn lemma_terminal_absorbs(run: PipelineView, events: Seq<EventView>)
    requires
        run.state.terminal(),
    ensures
        after(run, events) == (run, Seq::<ActionView>::empty()),
        events.len() > 0 ==> transition(run, events.first()) == (run, None::<ActionView>),
    decreases events.len(),
{
    if events.len() > 0 {
        lemma_terminal_absorbs(run, events.drop_first());
    }
}

/// No event changes the invocation, and the candidates change only when
/// the service answers with choices.
pub proof fn lemma_run_keeps_its_inputs(run: PipelineView, event: EventView)
    ensures
        transition(run, event).0.cli == run.cli,
        !(run.state is Fetching) ==> transition(run, event).0.candidates == run.candidates,
{
}

/// A request is sent only for a diff that was extracted and is not
/// empty, and it is the invocation's request for that diff.
pub proof fn lemma_fetch_needs_diff(run: PipelineView, event: EventView)
    ensures
        transition(run, event).1 matches Some(ActionView::Fetch(wanted)) ==> {
            &&& run.state is Extracting
            &&& event matches EventView::DiffExited { success, stdout }
            &&& diff_outcome(success, stdout) matches Ok(diff)
            &&& diff.len() > 0
            &&& wanted == run.cli.request(diff)
        },
{
}

/// A run whose diff comes out empty ends with the error that says so, and
/// whatever is reported afterwards no request is ever sent: the one
/// action of the run after its start is the end.
pub proof fn lemma_empty_diff_never_fetches(
    cli: CliView,
    success: bool,
    stdout: Seq<u8>,
    later: Seq<EventView>,
)
    requires
        diff_outcome(success, stdout) matches Ok(diff) && diff.len() == 0,
    ensures
        after(begin(cli).0, seq![EventView::DiffExited { success, stdout }] + later) == (
            begin(cli).0.at(State::Failed),
            seq![ActionView::Finish(Err(ErrorView::EmptyDiff))],
        ),
{
    let start = begin(cli).0;
    let events = seq![EventView::DiffExited { success, stdout }] + later;
    assert(events.drop_first() =~= later);
    lemma_terminal_absorbs(start.at(State::Failed), later);
    assert(seq![ActionView::Finish(Err(ErrorView::EmptyDiff))] + Seq::<ActionView>::empty()
        =~= seq![ActionView::Finish(Err(ErrorView::EmptyDiff))]);
}

/// When the service answers with choices the operator is shown one label
/// for each of them, in their order: as many entries as choices.
pub proof fn lemma_one_label_per_choice(run: PipelineView, texts: Seq<Seq<char>>)
    requires
        run.state is Fetching,
    ensures
        transition(run, EventView::Replied(ReplyView::Choices(texts))) == (
            PipelineView { cli: run.cli, state: State::Selecting, candidates: texts },
            Some(ActionView::Prompt { labels: labels_of(texts), highlighted: 0 }),
        ),
        labels_of(texts).len() == texts.len(),
        texts.len() == run.cli.settings().suggestions ==> labels_of(texts).len()
            == run.cli.settings().suggestions,
{
}

/// When the service answers with a failure the run ends with the fetch
/// error, and the error holds the body as it came.
pub proof fn lemma_failure_keeps_body(run: PipelineView, body: Seq<char>)
    requires
        run.state is Fetching,
    ensures
        transition(run, EventView::Replied(ReplyView::Failure(body))) == (
            run.at(State::Failed),
            Some(ActionView::Finish(Err(ErrorView::FetchData(body)))),
        ),
{
}

/// A commit that fails does not end the run: the operator is back at the
/// same candidates. No run ever ends with the error of a failed commit.
pub proof fn lemma_commit_failure_absorbed(run: PipelineView, event: EventView)
    ensures
        run.state is Committing && (event == EventView::CommitExited { success: false }
            || event is CommandFailed) ==> transition(run, event) == (
            run.at(State::Selecting),
            Some(run.prompt()),
        ),
        !(transition(run, event).1 matches Some(ActionView::Finish(Err(ErrorView::GitCommit)))),
{
    if run.state is Extracting {
        if let EventView::DiffExited { success, stdout } = event {
            assert(!(diff_outcome(success, stdout) matches Err(ErrorView::GitCommit)));
        }
    }
}

/// A commit that fails, a second pick and a commit that succeeds: the run
/// is done, and it ends with success.
pub proof fn lemma_retry_then_done(run: PipelineView, first: usize, second: usize)
    requires
        run.state is Selecting,
        first < run.candidates.len(),
        second < run.candidates.len(),
    ensures
        after(
            run,
            seq![
                EventView::Picked(first),
                EventView::CommitExited { success: false },
                EventView::Picked(second),
                EventView::CommitExited { success: true },
            ],
        ) == (
            run.at(State::Done),
            seq![
                ActionView::RunCommit(commit_arguments_of(run.candidates[first as int])),
                run.prompt(),
                ActionView::RunCommit(commit_arguments_of(run.candidates[second as int])),
                ActionView::Finish(Ok(())),
            ],
        ),
{
    let e1 = EventView::Picked(first);
    let e2 = EventView::CommitExited { success: false };
    let e3 = EventView::Picked(second);
    let e4 = EventView::CommitExited { success: true };
    let a1 = ActionView::RunCommit(commit_arguments_of(run.candidates[first as int]));
    let a2 = run.prompt();
    let a3 = ActionView::RunCommit(commit_arguments_of(run.candidates[second as int]));
    let a4 = ActionView::Finish(Ok(()));
    let committing = run.at(State::Committing);
    let done = run.at(State::Done);
    let none = Seq::<EventView>::empty();
    lemma_after_first(committing, e4, none);
    assert(seq![e4] + none =~= seq![e4]);
    lemma_after_first(run, e3, seq![e4]);
    assert(seq![e3] + seq![e4] =~= seq![e3, e4]);
    assert(after(run, seq![e3, e4]).1 =~= seq![a3, a4]);
    lemma_after_first(committing, e2, seq![e3, e4]);
    assert(seq![e2] + seq![e3, e4] =~= seq![e2, e3, e4]);
    assert(after(committing, seq![e2, e3, e4]).1 =~= seq![a2, a3, a4]);
    lemma_after_first(run, e1, seq![e2, e3, e4]);
    assert(seq![e1] + seq![e2, e3, e4] =~= seq![e1, e2, e3, e4]);
    assert(after(run, seq![e1, e2, e3, e4]).1 =~= seq![a1, a2, a3, a4]);
}

/// A sequence of events may be handled in one go or piece by piece.
pub proof fn lemma_after_concat(run: PipelineView, first: Seq<EventView>, then: Seq<EventView>)
    ensures
        after(run, first + then) == ({
            let (middle, begun) = after(run, first);
            let (last, ended) = after(middle, then);
            (last, begun + ended)
        }),
    decreases first.len(),
{
    if first.len() == 0 {
        assert(first + then =~= then);
        assert(Seq::<ActionView>::empty() + after(run, then).1 =~= after(run, then).1);
    } else {
        let (next, action) = transition(run, first.first());
        let rest = first.drop_first();
        assert((first + then).drop_first() =~= rest + then);
        lemma_after_concat(next, rest, then);
        let (middle, begun) = after(next, rest);
        let (last, ended) = after(middle, then);
        if let Some(action) = action {
            assert(seq![action] + (begun + ended) =~= (seq![action] + begun) + ended);
        }
    }
}

/// The events of commits that fail one after the other: each pick of
/// `picks` followed by a failed exit.
pub open spec fn failed_attempts(picks: Seq<usize>) -> Seq<EventView>
    decreases picks.len(),
{
    if picks.len() == 0 {
        Seq::empty()
    } else {
        seq![EventView::Picked(picks.first()), EventView::CommitExited { success: false }]
            + failed_attempts(picks.drop_first())
    }
}

/// However many commits fail, the run is where it was before them: the
/// operator is choosing among the same candidates. A commit that succeeds
/// after them ends the run, and it ends with success.
pub proof fn lemma_retries_without_bound(run: PipelineView, picks: Seq<usize>, last: usize)
    requires
        run.state is Selecting,
        forall|i: int| 0 <= i < picks.len() ==> picks[i] < run.candidates.len(),
        last < run.candidates.len(),
    ensures
        after(run, failed_attempts(picks)).0 == run,
        after(run, failed_attempts(picks)).1.len() == 2 * picks.len(),
        after(
            run,
            failed_attempts(picks) + seq![
                EventView::Picked(last),
                EventView::CommitExited { success: true },
            ],
        ) == (
            run.at(State::Done),
            after(run, failed_attempts(picks)).1 + seq![
                ActionView::RunCommit(commit_arguments_of(run.candidates[last as int])),
                ActionView::Finish(Ok(())),
            ],
        ),
    decreases picks.len(),
{
    let committing = run.at(State::Committing);
    let closing = seq![EventView::Picked(last), EventView::CommitExited { success: true }];
    if picks.len() > 0 {
        let rest = picks.drop_first();
        let pair = seq![
            EventView::Picked(picks.first()),
            EventView::CommitExited { success: false },
        ];
        lemma_retries_without_bound(run, rest, last);
        lemma_after_first(committing, EventView::CommitExited { success: false }, Seq::empty());
        lemma_after_first(
            run,
            EventView::Picked(picks.first()),
            seq![EventView::CommitExited { success: false }],
        );
        assert(seq![EventView::Picked(picks.first())] + seq![
            EventView::CommitExited { success: false },
        ] =~= pair);
        assert(seq![EventView::CommitExited { success: false }] + Seq::empty() =~= seq![
            EventView::CommitExited { success: false },
        ]);
        assert(committing.at(State::Selecting) == run);
        assert(after(run, pair).0 == run);
        assert(after(run, pair).1.len() == 2);
        lemma_after_concat(run, pair, failed_attempts(rest));
    }
    lemma_after_first(committing, EventView::CommitExited { success: true }, Seq::empty());
    lemma_after_first(
        run,
        EventView::Picked(last),
        seq![EventView::CommitExited { success: true }],
    );
    assert(seq![EventView::CommitExited { success: true }] + Seq::empty() =~= seq![
        EventView::CommitExited { success: true },
    ]);
    assert(seq![EventView::Picked(last)] + seq![EventView::CommitExited { success: true }]
        =~= closing);
    assert(after(run, closing).1 =~= seq![
        ActionView::RunCommit(commit_arguments_of(run.candidates[last as int])),
        ActionView::Finish(Ok(())),
    ]);
    lemma_after_concat(run, failed_attempts(picks), closing);
}

/// A run begins without candidates, and no event brings candidates to a
/// run that has not heard from the service.
pub proof fn lemma_wf_kept(cli: CliView, run: PipelineView, event: EventView)
    ensures
        begin(cli).0.wf(),
        run.wf() ==> transition(run, event).0.wf(),
{
}

/// How many of the actions send a request to the completion service.
pub open spec fn requests_sent(actions: Seq<ActionView>) -> nat
    decreases actions.len(),
{
    if actions.len() == 0 {
        0
    } else {
        (if actions.first() is Fetch {
            1nat
        } else {
            0nat
        }) + requests_sent(actions.drop_first())
    }
}

/// Whatever is reported, a run sends one request at most, and none once
/// it has left its first state: the service is never asked again.
pub proof fn lemma_one_request_at_most(run: PipelineView, events: Seq<EventView>)
    ensures
        requests_sent(after(run, events).1) <= 1,
        !(run.state is Extracting) ==> requests_sent(after(run, events).1) == 0,
    decreases events.len(),
{
    if events.len() > 0 {
        let (next, action) = transition(run, events.first());
        lemma_one_request_at_most(next, events.drop_first());
        let rest = after(next, events.drop_first()).1;
        if let Some(action) = action {
            assert((seq![action] + rest).drop_first() =~= rest);
        }
    }
}

} // verus!
