//! The command loop: the state machine that reads, dispatches and executes.
//!
//! The loop does no input or output itself. In each state it has one request
//! for its host; the host does what is asked and hands back an event, and the
//! loop moves on. So the host never decides anything, and the loop never
//! blocks: while the host waits for a line or for a child process, the loop
//! rests in the state that asked for it.

use crate::command::{classify, CommandLine, Directive, DirectiveView};
use crate::report::{Level, Output, OutputView};
use crate::shell::{invoke_system_command, Invocation, InvocationView, Shell};
use crate::text::words;
use vstd::prelude::*;

verus! {

/// The prompt that the host writes, without a line break, before it reads a
/// line.
pub const PROMPT: &'static str = ">>> ";

/// The directory that `cd` goes to where no target is given.
pub const ROOT: &'static str = "/";

/// The line that the end of the input counts as.
pub const LINE_AT_END_OF_INPUT: &'static str = "exit";

/// What an [`ExecutionOutcome`] holds, as plain text.
#[verifier::ext_equal]
pub enum ExecutionOutcomeView {
    Success { status: Option<i32>, output: Seq<Seq<char>> },
    Failure { cause: Seq<char> },
}

/// What came of the work that the host did for a directive.
#[derive(Debug, Clone, PartialEq, Eq)]
pub enum ExecutionOutcome {
    /// The work was done. `status` is the exit status of an external command,
    /// where the host has it: a command that was launched and then reported
    /// failure by its status is a success here. `output` holds what the work
    /// found to show, one item per line: the entries of a listed directory,
    /// in the order in which the file system gave them.
    Success { status: Option<i32>, output: Vec<String> },
    /// The work could not be done: the directory could not be entered or
    /// read, or the program could not be launched.
    Failure { cause: String },
}

impl View for ExecutionOutcome {
    type V = ExecutionOutcomeView;

    open spec fn view(&self) -> ExecutionOutcomeView {
        match self {
            ExecutionOutcome::Success { status, output } => ExecutionOutcomeView::Success {
                status: *status,
                output: output.deep_view(),
            },
            ExecutionOutcome::Failure { cause } => ExecutionOutcomeView::Failure { cause: cause@ },
        }
    }
}

/// What an [`Event`] holds, as plain text.
#[verifier::ext_equal]
pub enum EventView {
    Line(Seq<char>),
    EndOfInput,
    Resumed,
    Completed(ExecutionOutcomeView),
}

/// What the host hands back to the loop.
#[derive(Debug, Clone, PartialEq, Eq)]
pub enum Event {
    /// A whole line was read, given here as it was read, with its line
    /// break or without. It may be empty.
    Line(String),
    /// The input has ended, or reading it has failed.
    EndOfInput,
    /// Nothing was asked of the host, and it hands the turn back.
    Resumed,
    /// The work that was asked for has come to an end.
    Completed(ExecutionOutcome),
}

impl View for Event {
    type V = EventView;

    open spec fn view(&self) -> EventView {
        match self {
            Event::Line(text) => EventView::Line(text@),
            Event::EndOfInput => EventView::EndOfInput,
            Event::Resumed => EventView::Resumed,
            Event::Completed(outcome) => EventView::Completed(outcome@),
        }
    }
}

/// What a [`Request`] holds, as plain text.
#[verifier::ext_equal]
pub enum RequestView {
    ReadLine { prompt: Seq<char> },
    Proceed,
    ChangeDirectory { path: Seq<char> },
    ListDirectory,
    Spawn(InvocationView),
    Exit { status: i32 },
}

/// What the loop asks of its host.
#[derive(Debug, Clone, PartialEq, Eq)]
pub enum Request {
    /// Write `prompt` to standard output without a line break, then read one
    /// line from standard input. Answer with [`Event::Line`], or with
    /// [`Event::EndOfInput`] where no line can be read.
    ReadLine { prompt: String },
    /// Do nothing, and answer with [`Event::Resumed`].
    Proceed,
    /// Make `path` the working directory of the process. Answer with
    /// [`Event::Completed`].
    ChangeDirectory { path: String },
    /// Read the entries of the working directory, not those below them.
    /// Answer with [`Event::Completed`].
    ListDirectory,
    /// Launch the program with the streams of the shell, and wait until it
    /// has ended. Answer with [`Event::Completed`]: a failure where it could
    /// not be launched, a success with its exit status where it could.
    Spawn(Invocation),
    /// Leave the loop and end the process with `status`.
    Exit { status: i32 },
}

impl View for Request {
    type V = RequestView;

    open spec fn view(&self) -> RequestView {
        match self {
            Request::ReadLine { prompt } => RequestView::ReadLine { prompt: prompt@ },
            Request::Proceed => RequestView::Proceed,
            Request::ChangeDirectory { path } => RequestView::ChangeDirectory { path: path@ },
            Request::ListDirectory => RequestView::ListDirectory,
            Request::Spawn(invocation) => RequestView::Spawn(invocation@),
            Request::Exit { status } => RequestView::Exit { status: *status },
        }
    }
}

/// What a [`LoopState`] holds, as plain text.
#[verifier::ext_equal]
pub enum LoopStateView {
    AwaitingInput,
    Dispatching(Seq<char>),
    Executing(DirectiveView),
    Terminated,
}

/// The state of the loop.
#[derive(Debug, Clone, PartialEq, Eq)]
pub enum LoopState {
    /// The loop waits for a line. It starts here.
    AwaitingInput,
    /// A line is there and is to be classified.
    Dispatching(CommandLine),
    /// A directive is being carried out.
    Executing(Directive),
    /// The loop has ended. It never leaves this state.
    Terminated,
}

impl View for LoopState {
    type V = LoopStateView;

    open spec fn view(&self) -> LoopStateView {
        match self {
            LoopState::AwaitingInput => LoopStateView::AwaitingInput,
            LoopState::Dispatching(line) => LoopStateView::Dispatching(line@),
            LoopState::Executing(directive) => LoopStateView::Executing(directive@),
            LoopState::Terminated => LoopStateView::Terminated,
        }
    }
}

/// What the loop asks of its host in `state`.
///
/// A program with an empty name is never handed to the host: no such program
/// can be launched, so the loop takes the launch as failed without trying.
pub open spec fn request_of(state: LoopStateView) -> RequestView {
    match state {
        LoopStateView::AwaitingInput => RequestView::ReadLine { prompt: PROMPT@ },
        LoopStateView::Dispatching(_) => RequestView::Proceed,
        LoopStateView::Executing(directive) => match directive {
            DirectiveView::ChangeDirectory { target } => RequestView::ChangeDirectory {
                path: match target {
                    Some(path) => path,
                    None => ROOT@,
                },
            },
            DirectiveView::ListDirectory => RequestView::ListDirectory,
            DirectiveView::Terminate => RequestView::Proceed,
            DirectiveView::External { program, args } => if program.len() == 0 {
                RequestView::Proceed
            } else {
                RequestView::Spawn(InvocationView { program, arguments: args })
            },
        },
        LoopStateView::Terminated => RequestView::Exit { status: 0 },
    }
}

/// Whether `event` answers what the loop asks in `state`.
pub open spec fn answers(state: LoopStateView, event: EventView) -> bool {
    match request_of(state) {
        RequestView::ReadLine { .. } => event is Line || event is EndOfInput,
        RequestView::Proceed => event is Resumed,
        RequestView::ChangeDirectory { .. } => event is Completed,
        RequestView::ListDirectory => event is Completed,
        RequestView::Spawn(_) => event is Completed,
        RequestView::Exit { .. } => false,
    }
}

/// The state that follows `state` on `event`.
///
/// An event that does not answer the request of the state changes nothing.
/// Otherwise a line that was read is dispatched, and the end of the input
/// counts as the line `exit`; a line that is dispatched is classified, and
/// its directive is executed; and a directive that has been executed leads
/// back to waiting for input, whatever came of it, but for the directive to
/// terminate, which ends the loop.
pub open spec fn next_state(state: LoopStateView, event: EventView) -> LoopStateView {
    if !answers(state, event) {
        state
    } else {
        match state {
            LoopStateView::AwaitingInput => LoopStateView::Dispatching(
                match event {
                    EventView::Line(text) => text,
                    _ => LINE_AT_END_OF_INPUT@,
                },
            ),
            LoopStateView::Dispatching(line) => LoopStateView::Executing(classify(words(line))),
            LoopStateView::Executing(directive) => if directive is Terminate {
                LoopStateView::Terminated
            } else {
                LoopStateView::AwaitingInput
            },
            LoopStateView::Terminated => LoopStateView::Terminated,
        }
    }
}

/// The error diagnostic that reports a failure by its cause.
pub open spec fn failure_report(cause: Seq<char>) -> Seq<OutputView> {
    seq![OutputView::Diagnostic { level: Level::Error, text: cause }]
}

/// One line of standard output for each entry, in the same order.
pub open spec fn listing(entries: Seq<Seq<char>>) -> Seq<OutputView> {
    Seq::new(entries.len(), |i: int| OutputView::Line(entries[i]))
}

/// What the loop puts out when `event` reaches it in `state`.
///
/// Only the end of a built-in directive puts anything out: a listing shows
/// its entries, and a change of directory or a listing that failed is
/// reported by its cause. An external command puts nothing out through the
/// loop, whether it ran or could not be launched, and its exit status is
/// dropped.
pub open spec fn outputs_of(state: LoopStateView, event: EventView) -> Seq<OutputView> {
    match (state, event) {
        (
            LoopStateView::Executing(DirectiveView::ChangeDirectory { .. }),
            EventView::Completed(ExecutionOutcomeView::Failure { cause }),
        ) => failure_report(cause),
        (
            LoopStateView::Executing(DirectiveView::ListDirectory),
            EventView::Completed(ExecutionOutcomeView::Failure { cause }),
        ) => failure_report(cause),
        (
            LoopStateView::Executing(DirectiveView::ListDirectory),
            EventView::Completed(ExecutionOutcomeView::Success { output, .. }),
        ) => listing(output),
        _ => Seq::empty(),
    }
}

/// Makes one line of standard output of each entry.
fn lines_of(entries: Vec<String>) -> (lines: Vec<Output>)
    ensures
        lines.deep_view() == listing(entries.deep_view()),
{
    let mut lines: Vec<Output> = Vec::new();
    let mut i: usize = 0;
    while i < entries.len()
        invariant
            i <= entries.len(),
            lines.len() == i,
            forall|k: int| 0 <= k < i ==> lines[k]@ == OutputView::Line(entries[k]@),
        decreases entries.len() - i,
    {
        lines.push(Output::Line(entries[i].clone()));
        i = i + 1;
    }
    assert(lines.deep_view() =~= listing(entries.deep_view()));
    lines
}

/// No output.
fn nothing() -> (outputs: Vec<Output>)
    ensures
        outputs.deep_view() == Seq::<OutputView>::empty(),
{
    let outputs: Vec<Output> = Vec::new();
    assert(outputs.deep_view() =~= Seq::<OutputView>::empty());
    outputs
}

/// The report of one failure.
fn report_of(cause: String) -> (outputs: Vec<Output>)
    ensures
        outputs.deep_view() == failure_report(cause@),
{
    let mut outputs: Vec<Output> = Vec::new();
    outputs.push(Output::failure(cause));
    assert(outputs.deep_view() =~= failure_report(cause@));
    outputs
}

impl LoopState {
    /// What the loop asks of its host in this state.
    pub fn request(&self) -> (request: Request)
        ensures
            request@ == request_of(self@),
    {
        match self {
            LoopState::AwaitingInput => Request::ReadLine { prompt: String::from_str(PROMPT) },
            LoopState::Dispatching(_) => Request::Proceed,
            LoopState::Executing(directive) => match directive {
                Directive::ChangeDirectory { target } => Request::ChangeDirectory {
                    path: match target {
                        Some(path) => path.clone(),
                        None => String::from_str(ROOT),
                    },
                },
                Directive::ListDirectory => Request::ListDirectory,
                Directive::Terminate => Request::Proceed,
                Directive::External { program, args } => if program.as_str().is_empty() {
                    Request::Proceed
                } else {
                    Request::Spawn(invoke_system_command(program.as_str(), Some(args)))
                },
            },
            LoopState::Terminated => Request::Exit { status: 0 },
        }
    }

    /// Takes `event` and moves on: gives the state that follows and what is
    /// to be put out.
    pub fn step(self, event: Event) -> (next: (LoopState, Vec<Output>))
        ensures
            next.0@ == next_state(self@, event@),
            next.1.deep_view() == outputs_of(self@, event@),
    {
        match self {
            LoopState::AwaitingInput => match event {
                Event::Line(text) => (LoopState::Dispatching(CommandLine::parse(text)), nothing()),
                Event::EndOfInput => (
                    LoopState::Dispatching(
                        CommandLine::parse(String::from_str(LINE_AT_END_OF_INPUT)),
                    ),
                    nothing(),
                ),
                _ => (LoopState::AwaitingInput, nothing()),
            },
            LoopState::Dispatching(line) => match event {
                Event::Resumed => (LoopState::Executing(line.directive()), nothing()),
                _ => (LoopState::Dispatching(line), nothing()),
            },
            LoopState::Executing(directive) => match directive {
                Directive::ChangeDirectory { target } => match event {
                    Event::Completed(ExecutionOutcome::Failure { cause }) => (
                        LoopState::AwaitingInput,
                        report_of(cause),
                    ),
                    Event::Completed(ExecutionOutcome::Success { .. }) => (
                        LoopState::AwaitingInput,
                        nothing(),
                    ),
                    _ => (LoopState::Executing(Directive::ChangeDirectory { target }), nothing()),
                },
                Directive::ListDirectory => match event {
                    Event::Completed(ExecutionOutcome::Failure { cause }) => (
                        LoopState::AwaitingInput,
                        report_of(cause),
                    ),
                    Event::Completed(ExecutionOutcome::Success { status: _, output }) => (
                        LoopState::AwaitingInput,
                        lines_of(output),
                    ),
                    _ => (LoopState::Executing(Directive::ListDirectory), nothing()),
                },
                Directive::Terminate => match event {
                    Event::Resumed => (LoopState::Terminated, nothing()),
                    _ => (LoopState::Executing(Directive::Terminate), nothing()),
                },
                Directive::External { program, args } => {
                    let launched = !program.as_str().is_empty();
                    match event {
                        Event::Resumed if !launched => (LoopState::AwaitingInput, nothing()),
                        Event::Completed(_) if launched => (LoopState::AwaitingInput, nothing()),
                        _ => (
                            LoopState::Executing(Directive::External { program, args }),
                            nothing(),
                        ),
                    }
                },
            },
            LoopState::Terminated => (LoopState::Terminated, nothing()),
        }
    }
}

/// What a [`CommandLoop`] holds: the session, and the state as plain text.
#[verifier::ext_equal]
pub struct CommandLoopView {
    pub session: Shell,
    pub state: LoopStateView,
}

/// The command loop of one shell: its session, which it keeps as it got it,
/// and its state.
#[derive(Debug, Clone, PartialEq, Eq)]
pub struct CommandLoop {
    session: Shell,
    state: LoopState,
}

impl View for CommandLoop {
    type V = CommandLoopView;

    closed spec fn view(&self) -> CommandLoopView {
        CommandLoopView { session: self.session, state: self.state@ }
    }
}

impl CommandLoop {
    /// Starts the loop of `session`. The loop waits for input, and the facts
    /// of the session come out as diagnostics, here and never again.
    pub fn new(session: Shell) -> (started: (CommandLoop, Vec<Output>))
        ensures
            started.0@ == (CommandLoopView { session, state: LoopStateView::AwaitingInput }),
            started.1.deep_view() == session.debug_info(),
    {
        let info = session.stdout_debug_info();
        (CommandLoop { session, state: LoopState::AwaitingInput }, info)
    }

    /// The session.
    pub fn session(&self) -> (session: Shell)
        ensures
            session == self@.session,
    {
        self.session
    }

    /// The state.
    pub fn state(&self) -> (state: &LoopState)
        ensures
            state@ == self@.state,
    {
        &self.state
    }

    /// Tells whether the loop has ended.
    pub fn is_terminated(&self) -> (terminated: bool)
        ensures
            terminated == (self@.state is Terminated),
    {
        match self.state {
            LoopState::Terminated => true,
            _ => false,
        }
    }

    /// What the loop asks of its host now.
    pub fn request(&self) -> (request: Request)
        ensures
            request@ == request_of(self@.state),
    {
        self.state.request()
    }

    /// Takes `event` and moves on: gives the loop in the state that follows,
    /// with the session it had, and what is to be put out.
    pub fn step(self, event: Event) -> (next: (CommandLoop, Vec<Output>))
        ensures
            next.0@ == (CommandLoopView {
                session: self@.session,
                state: next_state(self@.state, event@),
            }),
            next.1.deep_view() == outputs_of(self@.state, event@),
    {
        let session = self.session;
        let (state, outputs) = self.state.step(event);
        (CommandLoop { session, state }, outputs)
    }
}

} // verus!
