//! Invocations of external programs as values.

use vstd::prelude::*;
use vstd::string::*;

verus! {

/// A program and the arguments it is to be run with.
#[derive(Clone, Debug, PartialEq, Eq)]
pub struct Command {
    pub program: String,
    pub args: Vec<String>,
}

/// A `Command` as a mathematical value.
pub ghost struct CommandView {
    pub program: Seq<char>,
    pub args: Seq<Seq<char>>,
}

impl View for Command {
    type V = CommandView;

    open spec fn view(&self) -> CommandView {
        CommandView { program: self.program@, args: self.args.deep_view() }
    }
}

impl Command {
    /// The command that runs `program` without arguments.
    pub fn new(program: &str) -> (r: Command)
        ensures
            r@ == (CommandView { program: program@, args: Seq::empty() }),
    {
        let r = Command { program: program.to_owned(), args: Vec::new() };
        assert(r.args.deep_view() =~= Seq::empty());
        r
    }

    /// The command with `arg` as one more argument.
    pub fn arg(self, arg: &str) -> (r: Command)
        ensures
            r@ == (CommandView { program: self@.program, args: self@.args.push(arg@) }),
    {
        let mut args = self.args;
        let ghost before = args.deep_view();
        args.push(arg.to_owned());
        assert(args.deep_view() =~= before.push(arg@));
        Command { program: self.program, args }
    }
}

} // verus!
