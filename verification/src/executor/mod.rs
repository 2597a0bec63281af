//! The shutdown action: which program a triggered plan runs.
use crate::config::ExecutorConfig;
use crate::error::Error;
use vstd::prelude::*;

pub mod command;
pub mod systemd;

use command::CommandExecutor;
use systemd::SystemdExecutor;

verus! {

/// A program to run, with its arguments.
#[derive(Clone, Debug)]
pub struct Invocation {
    pub program: String,
    pub args: Vec<String>,
}

/// The invocation runs `program` with exactly the arguments `args`.
pub open spec fn invocation_is(inv: Invocation, program: Seq<char>, args: Seq<Seq<char>>) -> bool {
    &&& inv.program@ == program
    &&& inv.args@.len() == args.len()
    &&& forall|k: int| 0 <= k < args.len() ==> #[trigger] inv.args@[k]@ == args[k]
}

/// Performs the shutdown action when a plan is triggered.
pub trait Executor {
    /// The program, with its arguments, that performs the shutdown action, or why
    /// there is none.
    fn invocation(&self) -> Result<Invocation, Error>;

    /// Human-readable name of this executor (for log messages).
    fn name(&self) -> &str;
}

/// The executor that a configuration asks for.
#[derive(Clone, Debug)]
pub enum ShutdownExecutor {
    Systemd(SystemdExecutor),
    Command(CommandExecutor),
}

/// Build an executor from the config: systemd for `Systemd`, the given shell command
/// for `Command`.
pub fn from_config(cfg: &ExecutorConfig) -> (e: ShutdownExecutor)
    ensures
        match cfg {
            ExecutorConfig::Systemd => e is Systemd,
            ExecutorConfig::Command { command } => e matches ShutdownExecutor::Command(c)
                && c.command_text() == command@,
        },
{
    match cfg {
        ExecutorConfig::Systemd => ShutdownExecutor::Systemd(SystemdExecutor),
        ExecutorConfig::Command { command } => ShutdownExecutor::Command(
            CommandExecutor::new(command.clone()),
        ),
    }
}

impl Executor for ShutdownExecutor {
    fn invocation(&self) -> (r: Result<Invocation, Error>)
        ensures
            match self {
                ShutdownExecutor::Systemd(_) => r matches Ok(inv) && systemd::is_poweroff(inv),
                ShutdownExecutor::Command(c) => c.invocation_outcome(r),
            },
    {
        match self {
            ShutdownExecutor::Systemd(s) => s.invocation(),
            ShutdownExecutor::Command(c) => c.invocation(),
        }
    }

    fn name(&self) -> (n: &str)
        ensures
            match self {
                ShutdownExecutor::Systemd(_) => n@ == systemd::systemd_name(),
                ShutdownExecutor::Command(_) => n@ == command::command_name(),
            },
    {
        match self {
            ShutdownExecutor::Systemd(s) => s.name(),
            ShutdownExecutor::Command(c) => c.name(),
        }
    }
}

} // verus!
