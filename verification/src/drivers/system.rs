//! External commands: what to run, and how a run ended.

use crate::errors::{text_result, Error, ErrorView};
use crate::fields::texts;
use crate::text::{trim, trimmed};
use crate::wireguard::configs::{clone_text, text_of};
use crate::wireguard::peers::clone_strings;
use vstd::prelude::*;
use vstd::string::*;

verus! {

/// An external command: the program, its arguments, and what it is given
/// on its standard input, if anything.
#[derive(Debug, PartialEq, Eq)]
pub struct Command {
    pub program: String,
    pub args: Vec<String>,
    pub stdin: Option<String>,
}

/// What a `Command` denotes.
pub struct CommandView {
    pub program: Seq<char>,
    pub args: Seq<Seq<char>>,
    pub stdin: Option<Seq<char>>,
}

impl View for Command {
    type V = CommandView;

    open spec fn view(&self) -> CommandView {
        CommandView {
            program: self.program@,
            args: texts(self.args@),
            stdin: text_of(self.stdin),
        }
    }
}

/// The command `program args..`, with nothing on standard input.
pub open spec fn plain(program: Seq<char>, args: Seq<Seq<char>>) -> CommandView {
    CommandView { program, args, stdin: None }
}

/// The command `program args..`, fed `stdin`.
pub open spec fn fed(program: Seq<char>, args: Seq<Seq<char>>, stdin: Seq<char>) -> CommandView {
    CommandView { program, args, stdin: Some(stdin) }
}

/// What a list of commands denotes.
pub open spec fn command_views(commands: Seq<Command>) -> Seq<CommandView> {
    Seq::new(commands.len(), |k: int| commands[k]@)
}

impl Command {
    /// The command `program args..`, with nothing on standard input.
    pub fn new(program: &str, args: Vec<String>) -> (r: Command)
        ensures
            r@ == plain(program@, texts(args@)),
    {
        Command { program: String::from_str(program), args, stdin: None }
    }

    /// The command `program args..`, fed `stdin`.
    pub fn with_stdin(program: &str, args: Vec<String>, stdin: &str) -> (r: Command)
        ensures
            r@ == fed(program@, texts(args@), stdin@),
    {
        Command {
            program: String::from_str(program),
            args,
            stdin: Some(String::from_str(stdin)),
        }
    }
}

impl Clone for Command {
    fn clone(&self) -> (r: Self)
        ensures
            r@ == self@,
    {
        Command {
            program: self.program.clone(),
            args: clone_strings(&self.args),
            stdin: clone_text(&self.stdin),
        }
    }
}

/// Appends the argument `word` to `args`.
pub fn push_arg(args: &mut Vec<String>, word: &str)
    ensures
        texts(final(args)@) == texts(old(args)@).push(word@),
{
    args.push(String::from_str(word));
    assert(texts(args@) =~= texts(old(args)@).push(word@));
}

/// How a command ended: whether it exited successfully, and what it wrote
/// to its standard output and standard error.
#[derive(Debug, PartialEq, Eq)]
pub struct CommandOutput {
    pub success: bool,
    pub stdout: String,
    pub stderr: String,
}

/// What a `CommandOutput` denotes.
pub struct CommandOutputView {
    pub success: bool,
    pub stdout: Seq<char>,
    pub stderr: Seq<char>,
}

impl CommandOutputView {
    /// What the command gave: its standard output without the white space
    /// around it where it succeeded, and `CommandFailed` with its standard
    /// error where it did not.
    pub open spec fn result(self) -> Result<Seq<char>, ErrorView> {
        if self.success {
            Ok(trim(self.stdout))
        } else {
            Err(ErrorView::CommandFailed { stderr: self.stderr })
        }
    }
}

impl View for CommandOutput {
    type V = CommandOutputView;

    open spec fn view(&self) -> CommandOutputView {
        CommandOutputView { success: self.success, stdout: self.stdout@, stderr: self.stderr@ }
    }
}

/// The view of an optional output.
pub open spec fn output_of(output: Option<CommandOutput>) -> Option<CommandOutputView> {
    match output {
        Some(output) => Some(output@),
        None => None,
    }
}

impl CommandOutput {
    /// What the command gave: its standard output without the white space
    /// around it where it succeeded, and `CommandFailed` with its standard
    /// error where it did not.
    pub fn into_result(self) -> (r: Result<String, Error>)
        ensures
            text_result(r) == self@.result(),
    {
        if self.success {
            Ok(trimmed(self.stdout.as_str()))
        } else {
            Err(Error::CommandFailed { stderr: self.stderr })
        }
    }
}

} // verus!
