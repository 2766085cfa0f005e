//! What the shell hands to its output channels.

use vstd::prelude::*;

verus! {

/// The verbosity that holds where the operator has configured none: only
/// genuine failures surface.
pub const DEFAULT_LOG_LEVEL: &'static str = "error";

/// How much a diagnostic matters. A reader of the diagnostic channel filters
/// by it.
#[derive(Debug, Clone, Copy, PartialEq, Eq, Structural)]
pub enum Level {
    /// A genuine failure.
    Error,
    /// A fact worth knowing, such as what the shell found when it started.
    Info,
    /// The reasoning of the shell itself.
    Debug,
}

/// What an [`Output`] holds, as plain text.
#[verifier::ext_equal]
pub enum OutputView {
    Line(Seq<char>),
    Diagnostic { level: Level, text: Seq<char> },
}

/// One line for one of the two output channels.
#[derive(Debug, Clone, PartialEq, Eq)]
pub enum Output {
    /// A line for standard output.
    Line(String),
    /// A line for the diagnostic channel.
    Diagnostic { level: Level, text: String },
}

impl View for Output {
    type V = OutputView;

    open spec fn view(&self) -> OutputView {
        match self {
            Output::Line(text) => OutputView::Line(text@),
            Output::Diagnostic { level, text } => OutputView::Diagnostic {
                level: *level,
                text: text@,
            },
        }
    }
}

impl DeepView for Output {
    type V = OutputView;

    open spec fn deep_view(&self) -> OutputView {
        self@
    }
}

/// How a yes or a no is written.
pub open spec fn bool_text(value: bool) -> Seq<char> {
    if value {
        "true"@
    } else {
        "false"@
    }
}

/// The diagnostic that states one yes-or-no fact: the label, then the answer.
pub open spec fn fact(label: Seq<char>, value: bool) -> OutputView {
    OutputView::Diagnostic { level: Level::Info, text: label + bool_text(value) }
}

impl Output {
    /// An informational diagnostic that states `value` under `label`.
    pub fn fact(label: &str, value: bool) -> (output: Output)
        ensures
            output@ == fact(label@, value),
    {
        let mut text = String::from_str(label);
        text.append(
            if value {
                "true"
            } else {
                "false"
            },
        );
        Output::Diagnostic { level: Level::Info, text }
    }

    /// An error diagnostic that gives the cause of a failure.
    pub fn failure(cause: String) -> (output: Output)
        ensures
            output@ == (OutputView::Diagnostic { level: Level::Error, text: cause@ }),
    {
        Output::Diagnostic { level: Level::Error, text: cause }
    }
}

} // verus!
