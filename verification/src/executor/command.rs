//! Shutdown through an arbitrary shell command.
use crate::error::Error;
use crate::executor::{invocation_is, Executor, Invocation};
use crate::text::{all_white_space, lemma_trimmed_empty, trim};
use vstd::prelude::*;

verus! {

broadcast use vstd::string::group_string_axioms;

/// Shuts down the system by running an arbitrary shell command.
#[derive(Clone, Debug)]
pub struct CommandExecutor {
    command: String,
}

/// The name this executor reports.
pub open spec fn command_name() -> Seq<char> {
    seq!['c', 'o', 'm', 'm', 'a', 'n', 'd']
}

/// The invocation is `sh -c <command>`.
pub open spec fn is_shell_run(inv: Invocation, command: Seq<char>) -> bool {
    invocation_is(inv, seq!['s', 'h'], seq![seq!['-', 'c'], command])
}

impl CommandExecutor {
    /// An executor for the given shell command.
    pub fn new(command: String) -> (e: Self)
        ensures
            e.command_text() == command@,
    {
        Self { command }
    }

    /// The shell command this executor runs.
    pub closed spec fn command_text(&self) -> Seq<char> {
        self.command@
    }

    /// What `invocation` gives for this executor: `EmptyCommand` exactly when the
    /// command is empty or only whitespace, else `sh -c <command>`.
    pub open spec fn invocation_outcome(&self, r: Result<Invocation, Error>) -> bool {
        if all_white_space(self.command_text()) {
            r == Err::<Invocation, Error>(Error::EmptyCommand)
        } else {
            r matches Ok(inv) && is_shell_run(inv, self.command_text())
        }
    }
}

impl Executor for CommandExecutor {
    fn invocation(&self) -> (r: Result<Invocation, Error>)
        ensures
            self.invocation_outcome(r),
    {
        let trimmed = trim(self.command.as_str());
        proof {
            lemma_trimmed_empty(self.command@);
        }
        if trimmed.as_str().is_empty() {
            return Err(Error::EmptyCommand);
        }
        let program = "sh".to_string();
        let flag = "-c".to_string();
        proof {
            reveal_strlit("sh");
            reveal_strlit("-c");
        }
        let mut args: Vec<String> = Vec::new();
        args.push(flag);
        args.push(self.command.clone());
        let inv = Invocation { program, args };
        assert(inv.program@ =~= seq!['s', 'h']);
        assert(inv.args@[0]@ =~= seq!['-', 'c']);
        Ok(inv)
    }

    fn name(&self) -> (n: &str)
        ensures
            n@ == command_name(),
    {
        proof {
            reveal_strlit("command");
        }
        let n = "command";
        assert(n@ =~= command_name());
        n
    }
}

} // verus!
