//! The session, and the probe of the environment that it is made from.

use crate::path::invoke_output;
use crate::report::{fact, Output, OutputView};
use crate::text::strings_from;
use vstd::prelude::*;

verus! {

/// What an [`Invocation`] holds, as plain text.
#[verifier::ext_equal]
pub struct InvocationView {
    pub program: Seq<char>,
    pub arguments: Seq<Seq<char>>,
}

/// A program to launch and the arguments to hand to it.
#[derive(Debug, Clone, PartialEq, Eq)]
pub struct Invocation {
    pub program: String,
    pub arguments: Vec<String>,
}

impl View for Invocation {
    type V = InvocationView;

    open spec fn view(&self) -> InvocationView {
        InvocationView { program: self.program@, arguments: self.arguments.deep_view() }
    }
}

/// Prepares the launch of the command `name`, as one would type it at a
/// terminal, with `arguments`. Without arguments the command is launched with
/// none. The host launches what is prepared here.
pub fn invoke_system_command(name: &str, arguments: Option<&Vec<String>>) -> (invocation:
    Invocation)
    ensures
        invocation@.program == name@,
        invocation@.arguments == match arguments {
            Some(list) => list.deep_view(),
            None => Seq::empty(),
        },
{
    let arguments = match arguments {
        Some(list) => strings_from(list, 0),
        None => Vec::new(),
    };
    Invocation { program: String::from_str(name), arguments }
}

/// What became of a launch.
#[derive(Debug, Clone, Copy, PartialEq, Eq, Structural)]
pub enum Launch {
    /// The program could not be launched.
    Failed,
    /// The program runs. `has_output` tells whether the host holds a stream
    /// to read its output from.
    Started { has_output: bool },
}

/// What the host found when it asked the three questions of the start-up
/// probe.
#[derive(Debug, Clone, Copy, PartialEq, Eq, Structural)]
pub struct Probe {
    /// What became of the launch of [`Shell::shell_lookup`].
    pub shell_lookup: Launch,
    /// Whether anything exists at [`Shell::USER_CONFIG_PATH`].
    pub user_config: bool,
    /// Whether anything exists at [`Shell::SYSTEM_CONFIG_PATH`].
    pub system_config: bool,
}

/// The session: three facts about the environment, taken once when the shell
/// starts and never changed.
#[derive(Debug, Clone, Copy, PartialEq, Eq, Structural)]
pub struct Shell {
    /// Is the shell the default shell?
    pub is_default: bool,
    /// Is there a configuration file for the whole system?
    pub has_system_config: bool,
    /// Is there a configuration file of the user?
    pub has_user_config: bool,
}

impl Shell {
    /// Where the configuration file of the user is stored.
    pub const USER_CONFIG_PATH: &'static str = "~/.config/ashor/ashor.toml";

    /// Where the configuration file of the whole system is stored.
    pub const SYSTEM_CONFIG_PATH: &'static str = "/etc/ashor/ashor.toml";

    /// The diagnostics that state the three facts of this session.
    pub open spec fn debug_info(&self) -> Seq<OutputView> {
        seq![
            fact("default_shell: "@, self.is_default),
            fact("user config: "@, self.has_user_config),
            fact("system config: "@, self.has_system_config),
        ]
    }

    /// The launch that looks up the variable `SHELL`, which names the default
    /// shell of the user. What becomes of this launch is the first answer of
    /// the probe.
    pub fn shell_lookup() -> (invocation: Invocation)
        ensures
            invocation@ == (InvocationView {
                program: "echo"@,
                arguments: seq![" $"@ + "SHELL"@],
            }),
    {
        let mut name = String::from_str("SHELL");
        invoke_output(&mut name)
    }

    /// Tells whether this shell is the default shell: the look-up of `SHELL`
    /// was launched and handed back a stream of output. What the stream holds
    /// is not read. A launch that failed means no.
    pub fn is_default(probe: &Probe) -> (default: bool)
        ensures
            default == (probe.shell_lookup == Launch::Started { has_output: true }),
    {
        match probe.shell_lookup {
            Launch::Started { has_output } => has_output,
            Launch::Failed => false,
        }
    }

    /// Tells whether the configuration file of the user exists.
    pub fn user_config_exists(probe: &Probe) -> (exists: bool)
        ensures
            exists == probe.user_config,
    {
        probe.user_config
    }

    /// Tells whether the configuration file of the system exists.
    pub fn system_config_exists(probe: &Probe) -> (exists: bool)
        ensures
            exists == probe.system_config,
    {
        probe.system_config
    }

    /// Makes the session from what the probe found.
    pub fn new(probe: &Probe) -> (shell: Shell)
        ensures
            shell.is_default == (probe.shell_lookup == Launch::Started { has_output: true }),
            shell.has_user_config == probe.user_config,
            shell.has_system_config == probe.system_config,
    {
        Shell {
            is_default: Self::is_default(probe),
            has_user_config: Self::user_config_exists(probe),
            has_system_config: Self::system_config_exists(probe),
        }
    }

    /// The three facts of the session as informational diagnostics, for the
    /// host to write.
    pub fn stdout_debug_info(&self) -> (info: Vec<Output>)
        ensures
            info.deep_view() == self.debug_info(),
    {
        let mut info: Vec<Output> = Vec::new();
        info.push(Output::fact("default_shell: ", self.is_default));
        info.push(Output::fact("user config: ", self.has_user_config));
        info.push(Output::fact("system config: ", self.has_system_config));
        assert(info.deep_view() =~= self.debug_info());
        info
    }
}

} // verus!
