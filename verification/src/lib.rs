//! The core of a minimal interactive command shell.
//!
//! The crate holds the decisions of the shell and none of its input or
//! output: how a line is cut into tokens, which directive a line stands for,
//! what the host process has to do for it, and how the loop moves on once the
//! host reports what happened.
//!
//! A host first answers the questions of the start-up probe
//! ([`shell::Probe`]) and makes the session from the answers
//! ([`shell::Shell::new`]). It starts the loop with the session
//! ([`command_loop::CommandLoop::new`]) and from then on does three things in
//! turn until the loop asks it to exit: it takes the request of the loop,
//! does what the request says, and hands the loop the event that tells what
//! came of it, writing whatever the loop puts out.
//!
//! - [`text`]: white space and words.
//! - [`command`]: the line and its directive.
//! - [`command_loop`]: the states of the loop, its requests and its steps.
//! - [`shell`] and [`path`]: the session, the probe, and the launches that
//!   the probe asks for.
//! - [`report`]: what goes to standard output and to the diagnostic channel.
//! - [`laws`]: what holds of the loop on every line, proved.

pub mod command;
pub mod command_loop;
pub mod laws;
pub mod path;
pub mod report;
pub mod shell;
pub mod text;
