//! The command line that starts the language server.

use vstd::prelude::*;

verus! {

/// A command for the editor to run: a program, its arguments in order, and
/// the environment variables to set for it.
#[derive(Debug, PartialEq, Eq)]
pub struct Command {
    pub command: String,
    pub args: Vec<String>,
    pub env: Vec<(String, String)>,
}

/// A [`Command`] as plain text.
pub struct CommandView {
    pub command: Seq<char>,
    pub args: Seq<Seq<char>>,
    pub env: Seq<(Seq<char>, Seq<char>)>,
}

impl View for Command {
    type V = CommandView;

    open spec fn view(&self) -> CommandView {
        CommandView {
            command: self.command@,
            args: Seq::new(self.args@.len(), |i: int| self.args@[i]@),
            env: Seq::new(self.env@.len(), |i: int| (self.env@[i].0@, self.env@[i].1@)),
        }
    }
}

/// The command that starts the binary at `path` as a language server: the
/// single argument `lsp`, and no environment of its own.
pub open spec fn lsp_command(path: Seq<char>) -> CommandView {
    CommandView { command: path, args: seq!["lsp"@], env: Seq::empty() }
}

impl Command {
    /// Builds the command that starts the binary at `path` as a language
    /// server.
    pub fn lsp(path: String) -> (command: Command)
        ensures
            command@ == lsp_command(path@),
    {
        let mut args: Vec<String> = Vec::new();
        args.push(String::from_str("lsp"));
        let command = Command { command: path, args, env: Vec::new() };
        assert(command@.args =~= seq!["lsp"@]);
        assert(command@.env =~= Seq::empty());
        command
    }
}

} // verus!
