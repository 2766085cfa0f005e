//! A line of input and the directive it stands for.

use crate::text::{same_text, split_whitespace, strings_from, words};
use vstd::prelude::*;

verus! {

/// What a [`Directive`] holds, as plain text.
#[verifier::ext_equal]
pub enum DirectiveView {
    ChangeDirectory { target: Option<Seq<char>> },
    ListDirectory,
    Terminate,
    External { program: Seq<char>, args: Seq<Seq<char>> },
}

/// What the shell is asked to do by one line.
#[derive(Debug, Clone, PartialEq, Eq)]
pub enum Directive {
    /// Change the working directory to `target`, or to the root directory
    /// where the line named none.
    ChangeDirectory { target: Option<String> },
    /// List the working directory.
    ListDirectory,
    /// End the loop.
    Terminate,
    /// Run `program` with `args` and wait for it.
    External { program: String, args: Vec<String> },
}

impl View for Directive {
    type V = DirectiveView;

    open spec fn view(&self) -> DirectiveView {
        match self {
            Directive::ChangeDirectory { target } => DirectiveView::ChangeDirectory {
                target: target.deep_view(),
            },
            Directive::ListDirectory => DirectiveView::ListDirectory,
            Directive::Terminate => DirectiveView::Terminate,
            Directive::External { program, args } => DirectiveView::External {
                program: program@,
                args: args.deep_view(),
            },
        }
    }
}

/// The base of a line: its first token, or the empty text where it has none.
pub open spec fn base_of(tokens: Seq<Seq<char>>) -> Seq<char> {
    if tokens.len() > 0 {
        tokens[0]
    } else {
        Seq::empty()
    }
}

/// The tokens after the base.
pub open spec fn arguments_of(tokens: Seq<Seq<char>>) -> Seq<Seq<char>> {
    if tokens.len() > 0 {
        tokens.drop_first()
    } else {
        Seq::empty()
    }
}

/// The directive that a line with these tokens stands for. Only the base
/// decides, and it is compared as it is written: `cd` takes the next token as
/// its target, `ls`, `quit` and `exit` take no notice of what follows them,
/// and any other base, the empty one too, names a program to run with the
/// tokens after it.
pub open spec fn classify(tokens: Seq<Seq<char>>) -> DirectiveView {
    let base = base_of(tokens);
    if base == "cd"@ {
        DirectiveView::ChangeDirectory {
            target: if tokens.len() > 1 {
                Some(tokens[1])
            } else {
                None
            },
        }
    } else if base == "ls"@ {
        DirectiveView::ListDirectory
    } else if base == "quit"@ || base == "exit"@ {
        DirectiveView::Terminate
    } else {
        DirectiveView::External { program: base, args: arguments_of(tokens) }
    }
}

/// The directive of each kind of base, case by case. The four names of the
/// built-in directives differ from each other and from the empty text.
pub proof fn lemma_classify_by_base(tokens: Seq<Seq<char>>)
    ensures
        base_of(tokens) == "cd"@ ==> classify(tokens) == (DirectiveView::ChangeDirectory {
            target: if tokens.len() > 1 {
                Some(tokens[1])
            } else {
                None
            },
        }),
        base_of(tokens) == "ls"@ ==> classify(tokens) == DirectiveView::ListDirectory,
        base_of(tokens) == "quit"@ || base_of(tokens) == "exit"@ ==> classify(tokens)
            == DirectiveView::Terminate,
        base_of(tokens).len() == 0 ==> classify(tokens) == (DirectiveView::External {
            program: Seq::empty(),
            args: arguments_of(tokens),
        }),
{
    reveal_strlit("cd");
    reveal_strlit("ls");
    reveal_strlit("quit");
    reveal_strlit("exit");
    let base = base_of(tokens);
    assert("cd"@[0] != "ls"@[0]);
    if base.len() == 0 {
        assert(base =~= Seq::<char>::empty());
    }
}

impl Directive {
    /// Classifies a line by its tokens.
    pub fn from_tokens(tokens: &Vec<String>) -> (directive: Directive)
        ensures
            directive@ == classify(tokens.deep_view()),
    {
        if tokens.len() == 0 {
            proof {
                lemma_classify_by_base(tokens.deep_view());
            }
            let args: Vec<String> = Vec::new();
            assert(args.deep_view() =~= Seq::<Seq<char>>::empty());
            return Directive::External { program: String::new(), args };
        }
        let base = tokens[0].as_str();
        if same_text(base, "cd") {
            let target = if tokens.len() > 1 {
                Some(tokens[1].clone())
            } else {
                None
            };
            Directive::ChangeDirectory { target }
        } else if same_text(base, "ls") {
            Directive::ListDirectory
        } else if same_text(base, "quit") || same_text(base, "exit") {
            Directive::Terminate
        } else {
            Directive::External { program: tokens[0].clone(), args: strings_from(tokens, 1) }
        }
    }
}

/// One line of input: its text as it was read, and the tokens that the text
/// is cut into at white space.
#[derive(Debug, PartialEq, Eq)]
pub struct CommandLine {
    raw: String,
    tokens: Vec<String>,
}

impl View for CommandLine {
    type V = Seq<char>;

    /// The text of the line as it was read.
    closed spec fn view(&self) -> Seq<char> {
        self.raw@
    }
}

impl Clone for CommandLine {
    fn clone(&self) -> (copy: CommandLine)
        ensures
            copy@ == self@,
    {
        proof {
            use_type_invariant(self);
        }
        let tokens = strings_from(&self.tokens, 0);
        assert(tokens.deep_view() =~= self.tokens.deep_view());
        CommandLine { raw: self.raw.clone(), tokens }
    }
}

impl CommandLine {
    /// The tokens held are always those of the text held.
    #[verifier::type_invariant]
    spec fn tokens_match_text(&self) -> bool {
        self.tokens.deep_view() == words(self.raw@)
    }

    /// Takes a line as it was read and cuts it into tokens.
    pub fn parse(raw: String) -> (line: CommandLine)
        ensures
            line@ == raw@,
    {
        let tokens = split_whitespace(raw.as_str());
        CommandLine { raw, tokens }
    }

    /// The text as it was read.
    pub fn raw(&self) -> (raw: &str)
        ensures
            raw@ == self@,
    {
        self.raw.as_str()
    }

    /// The tokens, in the order in which the line holds them.
    pub fn tokens(&self) -> (tokens: &Vec<String>)
        ensures
            tokens.deep_view() == words(self@),
    {
        proof {
            use_type_invariant(self);
        }
        &self.tokens
    }

    /// The first token, or the empty text where the line has no token.
    pub fn base(&self) -> (base: &str)
        ensures
            base@ == base_of(words(self@)),
    {
        proof {
            use_type_invariant(self);
            reveal_strlit("");
        }
        if self.tokens.len() > 0 {
            self.tokens[0].as_str()
        } else {
            ""
        }
    }

    /// The directive that the line stands for.
    pub fn directive(&self) -> (directive: Directive)
        ensures
            directive@ == classify(words(self@)),
    {
        proof {
            use_type_invariant(self);
        }
        Directive::from_tokens(&self.tokens)
    }
}

} // verus!
