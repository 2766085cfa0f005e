use ashor::command::{CommandLine, Directive};
use ashor::command_loop::{
    CommandLoop, Event, ExecutionOutcome, LoopState, Request, LINE_AT_END_OF_INPUT, PROMPT, ROOT,
};
use ashor::report::{Level, Output};
use ashor::shell::{Invocation, Shell};

fn list(words: &[&str]) -> Vec<String> {
    words.iter().map(|word| word.to_string()).collect()
}

fn line(text: &str) -> Event {
    Event::Line(text.to_string())
}

fn done() -> Event {
    Event::Completed(ExecutionOutcome::Success { status: None, output: Vec::new() })
}

fn exited(status: i32) -> Event {
    Event::Completed(ExecutionOutcome::Success { status: Some(status), output: Vec::new() })
}

fn listed(entries: &[&str]) -> Event {
    Event::Completed(ExecutionOutcome::Success { status: None, output: list(entries) })
}

fn failed(cause: &str) -> Event {
    Event::Completed(ExecutionOutcome::Failure { cause: cause.to_string() })
}

fn error(text: &str) -> Output {
    Output::Diagnostic { level: Level::Error, text: text.to_string() }
}

fn out(text: &str) -> Output {
    Output::Line(text.to_string())
}

fn executing(text: &str) -> LoopState {
    let (state, outputs) = LoopState::AwaitingInput.step(line(text));
    assert!(outputs.is_empty());
    assert_eq!(state, LoopState::Dispatching(CommandLine::parse(text.to_string())));
    assert_eq!(state.request(), Request::Proceed);
    let (state, outputs) = state.step(Event::Resumed);
    assert!(outputs.is_empty());
    assert_eq!(state, LoopState::Executing(CommandLine::parse(text.to_string()).directive()));
    state
}

fn each_event() -> Vec<Event> {
    vec![
        line(""),
        line("exit"),
        line("ls"),
        Event::EndOfInput,
        Event::Resumed,
        done(),
        exited(0),
        exited(1),
        listed(&["a", "b"]),
        failed("no"),
    ]
}

fn is_completed(event: &Event) -> bool {
    matches!(event, Event::Completed(_))
}

/// A host that does no work: it takes its lines from a script, and writes
/// down what it was asked and what it answered.
struct Script {
    lines: Vec<String>,
    entries: Vec<String>,
    missing: Vec<String>,
    journal: Vec<String>,
    standard_output: Vec<String>,
    diagnostics: Vec<String>,
}

impl Script {
    fn new(lines: &[&str]) -> Script {
        let mut lines = list(lines);
        lines.reverse();
        Script {
            lines,
            entries: Vec::new(),
            missing: Vec::new(),
            journal: Vec::new(),
            standard_output: Vec::new(),
            diagnostics: Vec::new(),
        }
    }

    fn answer(&mut self, request: Request) -> Option<Event> {
        match request {
            Request::ReadLine { prompt } => {
                self.journal.push(format!("prompt {}", prompt));
                match self.lines.pop() {
                    Some(text) => Some(Event::Line(text)),
                    None => Some(Event::EndOfInput),
                }
            }
            Request::Proceed => Some(Event::Resumed),
            Request::ChangeDirectory { path } => {
                self.journal.push(format!("cd {}", path));
                if self.missing.contains(&path) {
                    Some(failed("No such file or directory (os error 2)"))
                } else {
                    Some(done())
                }
            }
            Request::ListDirectory => {
                self.journal.push("ls".to_string());
                Some(Event::Completed(ExecutionOutcome::Success {
                    status: None,
                    output: self.entries.clone(),
                }))
            }
            Request::Spawn(invocation) => {
                self.journal.push(format!("launch {} {:?}", invocation.program, invocation.arguments));
                if self.missing.contains(&invocation.program) {
                    self.journal.push(format!("no {}", invocation.program));
                    Some(failed("No such file or directory (os error 2)"))
                } else {
                    self.journal.push(format!("end of {}", invocation.program));
                    Some(exited(0))
                }
            }
            Request::Exit { status } => {
                self.journal.push(format!("exit {}", status));
                None
            }
        }
    }

    fn run(&mut self) {
        let session = Shell { is_default: false, has_user_config: false, has_system_config: false };
        let (mut shell, _) = CommandLoop::new(session);
        let mut turns = 0;
        while let Some(event) = self.answer(shell.request()) {
            let (next, outputs) = shell.step(event);
            for output in outputs {
                match output {
                    Output::Line(text) => self.standard_output.push(text),
                    Output::Diagnostic { text, .. } => self.diagnostics.push(text),
                }
            }
            shell = next;
            turns += 1;
            assert!(turns < 1000);
        }
        assert!(shell.is_terminated());
    }
}

#[test]
fn the_loop_starts_waiting_for_input() {
    let session = Shell { is_default: true, has_user_config: false, has_system_config: true };
    let (shell, _) = CommandLoop::new(session);
    assert_eq!(shell.state(), &LoopState::AwaitingInput);
    assert!(!shell.is_terminated());
    assert_eq!(shell.request(), Request::ReadLine { prompt: ">>> ".to_string() });
    assert_eq!(shell.session(), session);
}

#[test]
fn the_loop_states_the_facts_of_its_session_when_it_starts() {
    let session = Shell { is_default: true, has_user_config: false, has_system_config: true };
    let (_, outputs) = CommandLoop::new(session);
    assert_eq!(
        outputs,
        vec![
            Output::Diagnostic { level: Level::Info, text: "default_shell: true".to_string() },
            Output::Diagnostic { level: Level::Info, text: "user config: false".to_string() },
            Output::Diagnostic { level: Level::Info, text: "system config: true".to_string() },
        ]
    );
    assert_eq!(outputs, session.stdout_debug_info());
}

#[test]
fn the_loop_keeps_its_session() {
    let session = Shell { is_default: true, has_user_config: true, has_system_config: false };
    let (mut shell, _) = CommandLoop::new(session);
    for event in [line("ls -l\n"), Event::Resumed, listed(&["a"]), line("exit"), Event::Resumed, Event::Resumed] {
        let (next, _) = shell.step(event);
        assert_eq!(next.session(), session);
        shell = next;
    }
    assert!(shell.is_terminated());
}

#[test]
fn the_constants_of_the_loop() {
    assert_eq!(PROMPT, ">>> ");
    assert_eq!(ROOT, "/");
    assert_eq!(LINE_AT_END_OF_INPUT, "exit");
}

#[test]
fn each_state_has_its_request() {
    assert_eq!(LoopState::AwaitingInput.request(), Request::ReadLine { prompt: ">>> ".to_string() });
    assert_eq!(LoopState::Dispatching(CommandLine::parse("ls".to_string())).request(), Request::Proceed);
    assert_eq!(LoopState::Executing(Directive::ListDirectory).request(), Request::ListDirectory);
    assert_eq!(LoopState::Executing(Directive::Terminate).request(), Request::Proceed);
    assert_eq!(
        LoopState::Executing(Directive::ChangeDirectory { target: Some("/tmp".to_string()) }).request(),
        Request::ChangeDirectory { path: "/tmp".to_string() }
    );
    assert_eq!(
        LoopState::Executing(Directive::External { program: "true".to_string(), args: list(&["x", "y"]) })
            .request(),
        Request::Spawn(Invocation { program: "true".to_string(), arguments: list(&["x", "y"]) })
    );
    assert_eq!(LoopState::Terminated.request(), Request::Exit { status: 0 });
}

#[test]
fn a_line_is_dispatched_and_then_executed() {
    let (state, outputs) = LoopState::AwaitingInput.step(line("ls\n"));
    assert_eq!(state, LoopState::Dispatching(CommandLine::parse("ls\n".to_string())));
    assert!(outputs.is_empty());
    let (state, outputs) = state.step(Event::Resumed);
    assert_eq!(state, LoopState::Executing(Directive::ListDirectory));
    assert!(outputs.is_empty());
}

#[test]
fn whitespace_only_lines_launch_nothing_and_the_loop_goes_on() {
    for text in ["", " ", "\n", " \t \r\n", "\u{00A0}\u{3000}\n"] {
        let state = executing(text);
        assert_eq!(
            state,
            LoopState::Executing(Directive::External { program: String::new(), args: Vec::new() })
        );
        assert_eq!(state.request(), Request::Proceed);
        let (state, outputs) = state.step(Event::Resumed);
        assert_eq!(state, LoopState::AwaitingInput);
        assert!(outputs.is_empty());
    }
}

#[test]
fn whitespace_only_lines_in_a_session() {
    let mut host = Script::new(&["\n", "   \n", "\t\n", "exit\n"]);
    host.run();
    assert_eq!(
        host.journal,
        list(&["prompt >>> ", "prompt >>> ", "prompt >>> ", "prompt >>> ", "exit 0"])
    );
    assert!(host.standard_output.is_empty());
    assert!(host.diagnostics.is_empty());
}

#[test]
fn cd_without_argument_targets_the_root() {
    for text in ["cd", "cd\n", "  cd  \n"] {
        assert_eq!(executing(text).request(), Request::ChangeDirectory { path: "/".to_string() });
    }
}

#[test]
fn cd_with_an_argument_targets_it() {
    assert_eq!(executing("cd /tmp\n").request(), Request::ChangeDirectory { path: "/tmp".to_string() });
    assert_eq!(executing("cd a b\n").request(), Request::ChangeDirectory { path: "a".to_string() });
}

#[test]
fn cd_that_succeeds_puts_nothing_out() {
    let (state, outputs) = executing("cd /tmp\n").step(done());
    assert_eq!(state, LoopState::AwaitingInput);
    assert!(outputs.is_empty());
}

#[test]
fn cd_to_a_missing_directory_reports_the_failure_and_goes_on() {
    let state = executing("cd /nonexistent-xyz\n");
    assert_eq!(state.request(), Request::ChangeDirectory { path: "/nonexistent-xyz".to_string() });
    let (state, outputs) = state.step(failed("No such file or directory (os error 2)"));
    assert_eq!(state, LoopState::AwaitingInput);
    assert_eq!(outputs, vec![error("No such file or directory (os error 2)")]);
    assert_eq!(state.request(), Request::ReadLine { prompt: ">>> ".to_string() });
}

#[test]
fn cd_to_a_missing_directory_asks_for_no_other_directory() {
    let mut host = Script::new(&["cd /nonexistent-xyz\n", "ls\n"]);
    host.missing = list(&["/nonexistent-xyz"]);
    host.entries = list(&["a"]);
    host.run();
    assert_eq!(
        host.journal,
        list(&["prompt >>> ", "cd /nonexistent-xyz", "prompt >>> ", "ls", "prompt >>> ", "exit 0"])
    );
    assert_eq!(host.diagnostics, list(&["No such file or directory (os error 2)"]));
    assert_eq!(host.standard_output, list(&["a"]));
}

#[test]
fn ls_on_two_entries_puts_out_two_lines() {
    let state = executing("ls\n");
    assert_eq!(state.request(), Request::ListDirectory);
    let (state, outputs) = state.step(listed(&["a", "b"]));
    assert_eq!(state, LoopState::AwaitingInput);
    assert_eq!(outputs, vec![out("a"), out("b")]);
}

#[test]
fn ls_keeps_the_order_of_the_file_system() {
    let (_, outputs) = executing("ls").step(listed(&["b", "a", "c"]));
    assert_eq!(outputs, vec![out("b"), out("a"), out("c")]);
}

#[test]
fn ls_on_an_empty_directory_puts_out_nothing() {
    let (state, outputs) = executing("ls").step(listed(&[]));
    assert_eq!(state, LoopState::AwaitingInput);
    assert!(outputs.is_empty());
}

#[test]
fn ls_that_fails_reports_the_failure_and_goes_on() {
    let (state, outputs) = executing("ls").step(failed("Permission denied (os error 13)"));
    assert_eq!(state, LoopState::AwaitingInput);
    assert_eq!(outputs, vec![error("Permission denied (os error 13)")]);
}

#[test]
fn ls_twice_puts_out_the_same() {
    let (_, first) = executing("ls\n").step(listed(&["a", "b"]));
    let (_, second) = executing("ls\n").step(listed(&["a", "b"]));
    assert_eq!(first, second);
    let (_, third) = executing("ls -la /tmp\n").step(listed(&["a", "b"]));
    assert_eq!(first, third);
}

#[test]
fn ls_twice_in_a_session() {
    let mut host = Script::new(&["ls\n", "ls\n"]);
    host.entries = list(&["\"./a\"", "\"./b\""]);
    host.run();
    assert_eq!(host.standard_output, list(&["\"./a\"", "\"./b\"", "\"./a\"", "\"./b\""]));
    assert!(host.diagnostics.is_empty());
}

#[test]
fn quit_and_exit_end_the_loop() {
    for text in ["quit", "exit", "quit\n", "exit\n", "exit now\n", "quit 1 2 3", "  exit  "] {
        let state = executing(text);
        assert_eq!(state, LoopState::Executing(Directive::Terminate));
        assert_eq!(state.request(), Request::Proceed);
        let (state, outputs) = state.step(Event::Resumed);
        assert_eq!(state, LoopState::Terminated);
        assert!(outputs.is_empty());
        assert_eq!(state.request(), Request::Exit { status: 0 });
    }
}

#[test]
fn exit_ends_a_session_with_status_zero() {
    let mut host = Script::new(&["exit now\n", "ls\n"]);
    host.run();
    assert_eq!(host.journal, list(&["prompt >>> ", "exit 0"]));
}

#[test]
fn the_end_of_the_input_ends_the_loop() {
    let (state, outputs) = LoopState::AwaitingInput.step(Event::EndOfInput);
    assert_eq!(state, LoopState::Dispatching(CommandLine::parse("exit".to_string())));
    assert!(outputs.is_empty());
    let (state, _) = state.step(Event::Resumed);
    assert_eq!(state, LoopState::Executing(Directive::Terminate));
    let (state, _) = state.step(Event::Resumed);
    assert_eq!(state, LoopState::Terminated);
}

#[test]
fn the_end_of_the_input_ends_a_session() {
    let mut host = Script::new(&[]);
    host.run();
    assert_eq!(host.journal, list(&["prompt >>> ", "exit 0"]));
}

#[test]
fn an_external_command_is_launched_with_its_arguments() {
    let state = executing("true x y\n");
    assert_eq!(
        state.request(),
        Request::Spawn(Invocation { program: "true".to_string(), arguments: list(&["x", "y"]) })
    );
}

#[test]
fn the_loop_waits_until_the_child_has_ended() {
    let mut state = executing("true x y\n");
    for event in [line("ls\n"), Event::EndOfInput, Event::Resumed, line("exit\n")] {
        let (next, outputs) = state.step(event);
        assert_eq!(
            next,
            LoopState::Executing(Directive::External { program: "true".to_string(), args: list(&["x", "y"]) })
        );
        assert!(outputs.is_empty());
        assert!(matches!(next.request(), Request::Spawn(_)));
        state = next;
    }
    let (state, outputs) = state.step(exited(0));
    assert_eq!(state, LoopState::AwaitingInput);
    assert!(outputs.is_empty());
    assert_eq!(state.request(), Request::ReadLine { prompt: ">>> ".to_string() });
}

#[test]
fn the_prompt_comes_back_after_the_child_has_ended() {
    let mut host = Script::new(&["true x y\n", "exit\n"]);
    host.run();
    assert_eq!(
        host.journal,
        list(&["prompt >>> ", "launch true [\"x\", \"y\"]", "end of true", "prompt >>> ", "exit 0"])
    );
    assert!(host.standard_output.is_empty());
    assert!(host.diagnostics.is_empty());
}

#[test]
fn the_exit_status_of_the_child_is_dropped() {
    for status in [0, 1, 2, 127, -1] {
        let (state, outputs) = executing("false\n").step(exited(status));
        assert_eq!(state, LoopState::AwaitingInput);
        assert!(outputs.is_empty());
    }
    let (state, outputs) = executing("false\n").step(done());
    assert_eq!(state, LoopState::AwaitingInput);
    assert!(outputs.is_empty());
}

#[test]
fn a_launch_that_fails_is_absorbed_in_silence() {
    let (state, outputs) = executing("no-such-program-xyz a\n").step(failed("No such file or directory"));
    assert_eq!(state, LoopState::AwaitingInput);
    assert!(outputs.is_empty());
}

#[test]
fn a_launch_that_fails_in_a_session() {
    let mut host = Script::new(&["no-such-program-xyz\n", "ls\n"]);
    host.missing = list(&["no-such-program-xyz"]);
    host.entries = list(&["a"]);
    host.run();
    assert_eq!(
        host.journal,
        list(&[
            "prompt >>> ",
            "launch no-such-program-xyz []",
            "no no-such-program-xyz",
            "prompt >>> ",
            "ls",
            "prompt >>> ",
            "exit 0"
        ])
    );
    assert!(host.diagnostics.is_empty());
    assert_eq!(host.standard_output, list(&["a"]));
}

#[test]
fn an_event_that_answers_nothing_changes_nothing() {
    for event in each_event() {
        if !matches!(event, Event::Line(_) | Event::EndOfInput) {
            let (state, outputs) = LoopState::AwaitingInput.step(event);
            assert_eq!(state, LoopState::AwaitingInput);
            assert!(outputs.is_empty());
        }
    }
    for event in each_event() {
        if event != Event::Resumed {
            let before = LoopState::Dispatching(CommandLine::parse("ls\n".to_string()));
            let (state, outputs) = before.clone().step(event);
            assert_eq!(state, before);
            assert!(outputs.is_empty());
        }
    }
    for text in ["cd /tmp", "ls", "true"] {
        for event in each_event() {
            if !is_completed(&event) {
                let before = executing(text);
                let (state, outputs) = before.clone().step(event);
                assert_eq!(state, before);
                assert!(outputs.is_empty());
            }
        }
    }
    for text in ["exit", ""] {
        for event in each_event() {
            if event != Event::Resumed {
                let before = executing(text);
                let (state, outputs) = before.clone().step(event);
                assert_eq!(state, before);
                assert!(outputs.is_empty());
            }
        }
    }
}

#[test]
fn a_loop_that_has_ended_stays_ended() {
    for event in each_event() {
        let (state, outputs) = LoopState::Terminated.step(event);
        assert_eq!(state, LoopState::Terminated);
        assert!(outputs.is_empty());
    }
}

#[test]
fn only_quit_and_exit_end_the_loop() {
    for text in ["", "ls", "cd", "cd /x", "true", "Exit", "QUIT", "echo exit"] {
        for event in each_event() {
            let (state, _) = executing(text).step(event);
            assert_ne!(state, LoopState::Terminated);
        }
    }
}

#[test]
fn a_whole_session() {
    let mut host = Script::new(&["\n", "cd\n", "ls\n", "cd /nonexistent-xyz\n", "true x y\n", "quit now\n", "ls\n"]);
    host.missing = list(&["/nonexistent-xyz"]);
    host.entries = list(&["a", "b"]);
    host.run();
    assert_eq!(
        host.journal,
        list(&[
            "prompt >>> ",
            "prompt >>> ",
            "cd /",
            "prompt >>> ",
            "ls",
            "prompt >>> ",
            "cd /nonexistent-xyz",
            "prompt >>> ",
            "launch true [\"x\", \"y\"]",
            "end of true",
            "prompt >>> ",
            "exit 0"
        ])
    );
    assert_eq!(host.standard_output, list(&["a", "b"]));
    assert_eq!(host.diagnostics, list(&["No such file or directory (os error 2)"]));
}
