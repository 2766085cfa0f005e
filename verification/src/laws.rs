//! What holds of the command loop, whatever it reads.

use crate::command::{base_of, classify, lemma_classify_by_base, DirectiveView};
use crate::command_loop::{
    answers, failure_report, next_state, outputs_of, request_of, EventView,
    ExecutionOutcomeView, LoopStateView, RequestView, LINE_AT_END_OF_INPUT, ROOT,
};
use crate::report::OutputView;
use crate::shell::InvocationView;
use crate::text::{
    is_blank, is_word, joined, lemma_blank_iff_no_words, lemma_word_between,
    lemma_words_are_solid, lemma_words_of_joined, words,
};
use vstd::prelude::*;

verus! {

/// The state in which the loop executes what `line` stands for: where it is
/// once it has read `line` while it waited for input, and has dispatched it.
pub open spec fn executing(line: Seq<char>) -> LoopStateView {
    next_state(
        next_state(LoopStateView::AwaitingInput, EventView::Line(line)),
        EventView::Resumed,
    )
}

/// A line that the loop reads is executed as the directive that its tokens
/// stand for.
pub proof fn law_a_line_is_executed_as_classified(line: Seq<char>)
    ensures
        next_state(LoopStateView::AwaitingInput, EventView::Line(line))
            == LoopStateView::Dispatching(line),
        outputs_of(LoopStateView::AwaitingInput, EventView::Line(line)).len() == 0,
        executing(line) == LoopStateView::Executing(classify(words(line))),
        outputs_of(LoopStateView::Dispatching(line), EventView::Resumed).len() == 0,
{
}

/// A line of nothing but white space, the empty line too, stands for an
/// external command with an empty name and no arguments. To execute it,
/// nothing is launched and nothing is put out, and the loop goes back to
/// waiting for input.
pub proof fn law_blank_line_runs_nothing(line: Seq<char>)
    requires
        is_blank(line),
    ensures
        classify(words(line)) == (DirectiveView::External {
            program: Seq::empty(),
            args: Seq::empty(),
        }),
        request_of(executing(line)) == RequestView::Proceed,
        next_state(executing(line), EventView::Resumed) == LoopStateView::AwaitingInput,
        outputs_of(executing(line), EventView::Resumed).len() == 0,
{
    lemma_blank_iff_no_words(line);
    lemma_classify_by_base(words(line));
}

/// Only a blank line names a program with an empty name: the name of every
/// other external command has at least one character, so the host is never
/// asked to launch a program without a name.
pub proof fn law_only_blank_lines_name_no_program(line: Seq<char>)
    ensures
        classify(words(line)) is External ==> (classify(words(line))->program.len() == 0
            <==> is_blank(line)),
        !(request_of(executing(line)) matches RequestView::Spawn(invocation)
            && invocation.program.len() == 0),
{
    lemma_blank_iff_no_words(line);
    lemma_words_are_solid(line);
    lemma_classify_by_base(words(line));
}

/// `cd` alone on a line asks for the root directory.
pub proof fn law_cd_alone_goes_to_root(line: Seq<char>)
    requires
        words(line).len() == 1,
        words(line)[0] == "cd"@,
    ensures
        request_of(executing(line)) == (RequestView::ChangeDirectory { path: ROOT@ }),
        ROOT@ == seq!['/'],
{
    reveal_strlit("/");
    assert(ROOT@ =~= seq!['/']);
}

/// `cd` with a target asks for that target, and takes no notice of what
/// follows it.
pub proof fn law_cd_goes_to_its_target(line: Seq<char>)
    requires
        words(line).len() >= 2,
        words(line)[0] == "cd"@,
    ensures
        request_of(executing(line)) == (RequestView::ChangeDirectory { path: words(line)[1] }),
{
}

/// A change of directory that failed is reported once, by its cause, and
/// the loop goes back to waiting for input: it asks for no other directory
/// in place of the one that could not be entered.
pub proof fn law_failed_cd_is_reported(target: Option<Seq<char>>, cause: Seq<char>)
    ensures
        ({
            let state = LoopStateView::Executing(DirectiveView::ChangeDirectory { target });
            let event = EventView::Completed(ExecutionOutcomeView::Failure { cause });
            &&& next_state(state, event) == LoopStateView::AwaitingInput
            &&& request_of(next_state(state, event)) is ReadLine
            &&& outputs_of(state, event) == failure_report(cause)
            &&& failure_report(cause).len() == 1
        }),
{
}

/// A listing puts out as many lines as the directory has entries, and the
/// line at each place names the entry at that place. Then the loop goes back
/// to waiting for input.
pub proof fn law_listing_names_each_entry(status: Option<i32>, entries: Seq<Seq<char>>)
    ensures
        ({
            let state = LoopStateView::Executing(DirectiveView::ListDirectory);
            let event = EventView::Completed(
                ExecutionOutcomeView::Success { status, output: entries },
            );
            &&& next_state(state, event) == LoopStateView::AwaitingInput
            &&& outputs_of(state, event).len() == entries.len()
            &&& forall|i: int|
                0 <= i < entries.len() ==> #[trigger] outputs_of(state, event)[i]
                    == OutputView::Line(entries[i])
        }),
{
}

/// A listing that failed is reported once, by its cause, and the loop goes
/// back to waiting for input.
pub proof fn law_failed_listing_is_reported(cause: Seq<char>)
    ensures
        ({
            let state = LoopStateView::Executing(DirectiveView::ListDirectory);
            let event = EventView::Completed(ExecutionOutcomeView::Failure { cause });
            &&& next_state(state, event) == LoopStateView::AwaitingInput
            &&& outputs_of(state, event) == failure_report(cause)
        }),
{
}

/// Two lines that start with `ls` put out the same lines where the directory
/// holds the same entries, whatever else the two lines hold.
pub proof fn law_listing_is_repeatable(
    first: Seq<char>,
    second: Seq<char>,
    outcome: ExecutionOutcomeView,
)
    requires
        base_of(words(first)) == "ls"@,
        base_of(words(second)) == "ls"@,
    ensures
        request_of(executing(first)) == RequestView::ListDirectory,
        request_of(executing(second)) == RequestView::ListDirectory,
        outputs_of(executing(first), EventView::Completed(outcome)) == outputs_of(
            executing(second),
            EventView::Completed(outcome),
        ),
        next_state(executing(first), EventView::Completed(outcome))
            == LoopStateView::AwaitingInput,
        next_state(executing(second), EventView::Completed(outcome))
            == LoopStateView::AwaitingInput,
{
    lemma_classify_by_base(words(first));
    lemma_classify_by_base(words(second));
}

/// A line that starts with `quit` or with `exit` ends the loop, whatever
/// follows on the line, and asks nothing of the host on the way.
pub proof fn law_quit_and_exit_terminate(line: Seq<char>)
    requires
        base_of(words(line)) == "quit"@ || base_of(words(line)) == "exit"@,
    ensures
        executing(line) == LoopStateView::Executing(DirectiveView::Terminate),
        request_of(executing(line)) == RequestView::Proceed,
        next_state(executing(line), EventView::Resumed) == LoopStateView::Terminated,
        request_of(LoopStateView::Terminated) == (RequestView::Exit { status: 0 }),
{
    lemma_classify_by_base(words(line));
}

/// The end of the input ends the loop as the line `exit` does.
pub proof fn law_end_of_input_terminates()
    ensures
        next_state(LoopStateView::AwaitingInput, EventView::EndOfInput) == next_state(
            LoopStateView::AwaitingInput,
            EventView::Line(LINE_AT_END_OF_INPUT@),
        ),
        executing(LINE_AT_END_OF_INPUT@) == LoopStateView::Executing(DirectiveView::Terminate),
        next_state(executing(LINE_AT_END_OF_INPUT@), EventView::Resumed)
            == LoopStateView::Terminated,
{
    reveal_strlit("exit");
    let line = LINE_AT_END_OF_INPUT@;
    assert(line.skip(0) =~= line);
    lemma_word_between(line, 0, 4);
    assert(words(line.skip(4)) =~= Seq::<Seq<char>>::empty());
    assert(base_of(words(line)) =~= "exit"@);
    law_quit_and_exit_terminate(line);
}

/// A line that names a program which is no built-in directive asks the host
/// to launch that program with the tokens after it as its arguments, each as
/// it was typed and in the order in which they were typed.
pub proof fn law_external_command_gets_its_arguments(program: Seq<char>, args: Seq<Seq<char>>)
    requires
        is_word(program),
        forall|i: int| 0 <= i < args.len() ==> is_word(#[trigger] args[i]),
        program != "cd"@,
        program != "ls"@,
        program != "quit"@,
        program != "exit"@,
    ensures
        request_of(executing(joined(seq![program] + args))) == RequestView::Spawn(
            InvocationView { program, arguments: args },
        ),
{
    let tokens = seq![program] + args;
    assert forall|i: int| 0 <= i < tokens.len() implies is_word(#[trigger] tokens[i]) by {
        if i > 0 {
            assert(tokens[i] == args[i - 1]);
        }
    }
    lemma_words_of_joined(tokens);
    assert(tokens.drop_first() =~= args);
}

/// While an external command runs the loop waits: it asks the host to launch
/// the program with its arguments as they stand on the line, and until the
/// host says that this has come to an end, no event moves the loop or puts
/// anything out.
pub proof fn law_loop_waits_for_the_child(
    program: Seq<char>,
    args: Seq<Seq<char>>,
    event: EventView,
)
    requires
        program.len() > 0,
        !(event is Completed),
    ensures
        ({
            let state = LoopStateView::Executing(DirectiveView::External { program, args });
            &&& request_of(state) == RequestView::Spawn(
                InvocationView { program, arguments: args },
            )
            &&& next_state(state, event) == state
            &&& outputs_of(state, event).len() == 0
        }),
{
}

/// Once an external command has come to an end the loop goes back to waiting
/// for input and puts nothing out, whether the program ran, with whatever
/// exit status, or could not be launched.
pub proof fn law_external_outcome_is_absorbed(
    program: Seq<char>,
    args: Seq<Seq<char>>,
    outcome: ExecutionOutcomeView,
)
    requires
        program.len() > 0,
    ensures
        ({
            let state = LoopStateView::Executing(DirectiveView::External { program, args });
            &&& next_state(state, EventView::Completed(outcome)) == LoopStateView::AwaitingInput
            &&& outputs_of(state, EventView::Completed(outcome)).len() == 0
        }),
{
}

/// Only the directive to terminate ends the loop: from a state that has not
/// ended, the loop ends on an event if and only if it was executing that
/// directive and the event answers it.
pub proof fn law_only_terminate_ends_the_loop(state: LoopStateView, event: EventView)
    requires
        !(state is Terminated),
    ensures
        next_state(state, event) is Terminated <==> state == LoopStateView::Executing(
            DirectiveView::Terminate,
        ) && event is Resumed,
{
}

/// A loop that has ended stays ended and puts nothing out.
pub proof fn law_terminated_is_final(event: EventView)
    ensures
        !answers(LoopStateView::Terminated, event),
        next_state(LoopStateView::Terminated, event) == LoopStateView::Terminated,
        outputs_of(LoopStateView::Terminated, event).len() == 0,
{
}

/// An event that does not answer what the loop asks changes nothing and
/// puts nothing out.
pub proof fn law_misplaced_event_changes_nothing(state: LoopStateView, event: EventView)
    requires
        !answers(state, event),
    ensures
        next_state(state, event) == state,
        outputs_of(state, event).len() == 0,
{
}

} // verus!
