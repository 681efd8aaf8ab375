//! The command that runs a target.

use crate::text::same_text;
use vstd::prelude::*;

verus! {

/// Why a command could not be made from its arguments.
#[derive(Debug, PartialEq, Eq)]
pub struct CommandError {
    /// What is wrong with the arguments.
    pub reason: String,
}

/// The command that runs a target.
#[derive(Debug)]
pub struct Run {
    _simulator: bool,
}

/// The word with which a request to run begins.
pub open spec fn run_word() -> Seq<char> {
    "run"@
}

/// Whether the arguments of a run command ask for the simulator: the first
/// of them is the word `true`.
pub open spec fn asks_for_simulator(args: Seq<&str>) -> bool {
    args.len() > 0 && args[0]@ == "true"@
}

impl Run {
    /// Whether the command runs on the simulator.
    pub closed spec fn spec_simulator(&self) -> bool {
        self._simulator
    }

    /// Whether the command runs on the simulator.
    #[verifier::when_used_as_spec(spec_simulator)]
    pub fn simulator(&self) -> (r: bool)
        ensures
            r == self.spec_simulator(),
    {
        self._simulator
    }

    /// Makes the command from its arguments. The first argument says
    /// whether to run on the simulator; anything but the word `true`, and no
    /// argument at all, say not to. There is no list of arguments that is
    /// refused.
    pub fn new(args: Vec<&str>) -> (r: Result<Run, CommandError>)
        ensures
            r matches Ok(run) && run.spec_simulator() == asks_for_simulator(args@),
    {
        let _simulator = args.len() > 0 && same_text(args[0], "true");
        Ok(Run { _simulator })
    }

    /// The words of the request that asks the daemon to run: the word `run`,
    /// then the three arguments as they are.
    pub fn request(path: &str, name: &str, new_name: &str) -> (r: Result<Vec<String>, CommandError>)
        ensures
            r matches Ok(words) && words.deep_view() == seq![run_word(), path@, name@, new_name@],
    {
        let mut words: Vec<String> = Vec::new();
        words.push("run".to_owned());
        words.push(path.to_owned());
        words.push(name.to_owned());
        words.push(new_name.to_owned());
        assert(words.deep_view() == seq![run_word(), path@, name@, new_name@]);
        Ok(words)
    }
}

} // verus!
