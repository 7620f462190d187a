//! Process invocations handed to the unverified front-end to run.

use vstd::prelude::*;

verus! {

/// Name of the external management tool's binary, the target of every
/// subcommand.
pub open spec fn tool_name() -> Seq<char> {
    "distrobox"@
}

/// Mathematical view of an [`Invocation`].
pub struct InvocationView {
    pub program: Seq<char>,
    pub args: Seq<Seq<char>>,
}

/// One process invocation: a program and its argument list.
///
/// The arguments are discrete: each element is meant to reach the spawned
/// process as one argv entry, never interpolated into a shell string, so a
/// box name holding shell metacharacters stays one literal argument.
#[derive(Debug, Clone, PartialEq, Eq)]
pub struct Invocation {
    pub program: String,
    pub args: Vec<String>,
}

impl View for Invocation {
    type V = InvocationView;

    open spec fn view(&self) -> InvocationView {
        InvocationView { program: self.program@, args: self.args.deep_view() }
    }
}

/// The executable name of the external management tool.
pub fn tool_program() -> (r: String)
    ensures
        r@ == tool_name(),
{
    "distrobox".to_owned()
}

} // verus!
