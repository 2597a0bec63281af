//! Shutdown through systemd.
use crate::error::Error;
use crate::executor::{invocation_is, Executor, Invocation};
use vstd::prelude::*;

verus! {

broadcast use vstd::string::group_string_axioms;

/// Shuts down the system via `systemctl poweroff`.
#[derive(Clone, Copy, Debug)]
pub struct SystemdExecutor;

/// The name this executor reports.
pub open spec fn systemd_name() -> Seq<char> {
    seq!['s', 'y', 's', 't', 'e', 'm', 'd']
}

/// The invocation is `systemctl poweroff`.
pub open spec fn is_poweroff(inv: Invocation) -> bool {
    invocation_is(
        inv,
        seq!['s', 'y', 's', 't', 'e', 'm', 'c', 't', 'l'],
        seq![seq!['p', 'o', 'w', 'e', 'r', 'o', 'f', 'f']],
    )
}

impl Executor for SystemdExecutor {
    fn invocation(&self) -> (r: Result<Invocation, Error>)
        ensures
            r matches Ok(inv) && is_poweroff(inv),
    {
        let program = "systemctl".to_string();
        let poweroff = "poweroff".to_string();
        proof {
            reveal_strlit("systemctl");
            reveal_strlit("poweroff");
        }
        let mut args: Vec<String> = Vec::new();
        args.push(poweroff);
        let inv = Invocation { program, args };
        assert(inv.program@ =~= seq!['s', 'y', 's', 't', 'e', 'm', 'c', 't', 'l']);
        assert(inv.args@[0]@ =~= seq!['p', 'o', 'w', 'e', 'r', 'o', 'f', 'f']);
        Ok(inv)
    }

    fn name(&self) -> (n: &str)
        ensures
            n@ == systemd_name(),
    {
        proof {
            reveal_strlit("systemd");
        }
        let n = "systemd";
        assert(n@ =~= systemd_name());
        n
    }
}

} // verus!
