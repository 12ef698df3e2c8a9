//! How a shell is asked to run a command line: `<shell> -c <command>`.
use vstd::prelude::*;

verus! {

/// The option that makes a shell run the command line given as the next
/// argument.
pub const COMMAND_FLAG: &'static str = "-c";

/// The shells that have a convenience entry point of their own.
#[derive(Clone, Copy, Debug, PartialEq, Eq, Structural)]
pub enum Shell {
    Sh,
    Bash,
    Zsh,
}

impl Shell {
    /// The executable name under which the shell is looked up.
    pub open spec fn program_spec(self) -> Seq<char> {
        match self {
            Shell::Sh => "sh"@,
            Shell::Bash => "bash"@,
            Shell::Zsh => "zsh"@,
        }
    }

    /// The executable name of this shell.
    pub fn program(&self) -> (r: &'static str)
        ensures
            r@ == self.program_spec(),
    {
        match self {
            Shell::Sh => "sh",
            Shell::Bash => "bash",
            Shell::Zsh => "zsh",
        }
    }
}

/// The arguments of the shell's process for `command`, in order: the command
/// flag, then the command line as one opaque argument.
pub fn shell_arguments(command: &str) -> (r: Vec<String>)
    ensures
        r@.len() == 2,
        r@[0]@ == COMMAND_FLAG@,
        r@[1]@ == command@,
{
    let mut args: Vec<String> = Vec::new();
    args.push(COMMAND_FLAG.to_owned());
    args.push(command.to_owned());
    args
}

} // verus!
