//! Short names for building exe-script commands.
use vstd::prelude::*;
use crate::batch_requestor::Command;

verus! {

#[allow(non_upper_case_globals)]
pub const deploy: Command = Command::Deploy;

#[allow(non_upper_case_globals)]
pub const start: Command = Command::Start;

#[allow(non_upper_case_globals)]
pub const stop: Command = Command::Stop;

/// The text of each argument.
pub open spec fn args_text(args: Seq<String>) -> Seq<Seq<char>> {
    args.map_values(|a: String| a@)
}

/// A `Run` command with the given arguments.
pub fn run(s: &[&str]) -> (c: Command)
    ensures
        c matches Command::Run(args) && args_text(args@) == s@.map_values(|a: &str| a@),
{
    let mut args: Vec<String> = Vec::new();
    let n = s.len();
    for i in 0..n
        invariant
            n == s@.len(),
            args@.len() == i,
            forall|j: int| 0 <= j < i ==> #[trigger] args@[j]@ == s@[j]@,
    {
        args.push(s[i].to_owned());
    }
    proof {
        assert(args_text(args@) =~= s@.map_values(|a: &str| a@));
    }
    Command::Run(args)
}

} // verus!
