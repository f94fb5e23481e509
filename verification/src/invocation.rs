//! Description of one external-tool invocation: the program, its argument
//! list, and what is streamed to its input channel. A secret is only ever
//! carried in the input field — never in the argument list, which every
//! builder pins to a function of the configuration alone — so it cannot
//! leak through process listings.

use vstd::prelude::*;

verus! {

/// One external-tool invocation, ready for the front end to spawn.
pub struct Invocation {
    /// The program to launch.
    pub program: String,
    /// The argument list, never containing secret material.
    pub args: Vec<String>,
    /// What to stream to the process's input channel before waiting, for
    /// tools that read a secret there.
    pub input: Option<String>,
}

impl Invocation {
    /// The argument list as plain text.
    pub open spec fn args_text(&self) -> Seq<Seq<char>> {
        self.args.deep_view()
    }
}

} // verus!
