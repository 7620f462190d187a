//! The action dispatcher: per-action argument lists, the confirmation gate
//! in front of deletion, and the mapping from exit status to outcome.

use crate::invocation::{tool_name, tool_program, Invocation};
use crate::text::str_eq;
use vstd::prelude::*;

verus! {

/// One user action on a box row, plus the toolbar's creation action.
#[derive(Debug, Clone, Copy, PartialEq, Eq, Structural)]
pub enum Action {
    /// Hand off to the tool's interactive creation flow.
    Create,
    /// Remove the named box; gated behind an explicit confirmation.
    Delete,
    /// Run the named box's upgrade to completion, blocking the caller.
    Upgrade,
    /// Open an interactive terminal inside the named box, detached.
    OpenTerminal,
    /// Wired in the UI but deliberately a no-op: its behaviour is
    /// unspecified, and nothing may be invoked for it.
    ShowApplications,
}

/// The tool's argument list for an action on the box called `name`, or
/// `None` for the action that must invoke nothing.
pub open spec fn action_args(action: Action, name: Seq<char>) -> Option<Seq<Seq<char>>> {
    match action {
        Action::Create => Some(seq!["create"@]),
        Action::Delete => Some(seq!["rm"@, name]),
        Action::Upgrade => Some(seq!["upgrade"@, name]),
        Action::OpenTerminal => Some(seq!["enter"@, name]),
        Action::ShowApplications => None,
    }
}

/// Whether an action addresses one named box.
pub open spec fn action_takes_name(action: Action) -> bool {
    match action {
        Action::Delete => true,
        Action::Upgrade => true,
        Action::OpenTerminal => true,
        Action::Create => false,
        Action::ShowApplications => false,
    }
}

/// The argument list handed to the user's terminal emulator: run the
/// tool's enter subcommand against the named box.
pub open spec fn terminal_args(name: Seq<char>) -> Seq<Seq<char>> {
    seq!["-e"@, "distrobox"@, "enter"@, name]
}

/// A box name is always handed over verbatim, as one discrete, final argv
/// entry — never interpolated into a shell string — both in the tool's own
/// argument list and in the one given to the terminal emulator. A name
/// holding shell metacharacters therefore stays a single literal argument.
pub proof fn lemma_name_single_argument(action: Action, name: Seq<char>)
    requires
        action_takes_name(action),
    ensures
        action_args(action, name) matches Some(args) && args.last() == name,
        terminal_args(name).last() == name,
{
}

/// Whether the dispatcher waits for the spawned process: every action
/// blocks the caller until the subprocess exits, except the terminal,
/// which is detached and never observed.
pub fn waits_for_exit(action: Action) -> (r: bool)
    ensures
        r == (action != Action::OpenTerminal),
{
    action != Action::OpenTerminal
}

/// Build the tool invocation for an action on the box called `name`:
/// `Some` exactly for the actions that invoke the tool, with the program
/// and arguments pinned by [`action_args`].
pub fn action_invocation(action: Action, name: &str) -> (r: Option<Invocation>)
    ensures
        match r {
            Some(inv) => inv@.program == tool_name() && Some(inv@.args) == action_args(
                action,
                name@,
            ),
            None => action_args(action, name@) is None,
        },
{
    let mut args: Vec<String> = Vec::new();
    match action {
        Action::Create => {
            args.push("create".to_owned());
        },
        Action::Delete => {
            args.push("rm".to_owned());
            args.push(name.to_owned());
        },
        Action::Upgrade => {
            args.push("upgrade".to_owned());
            args.push(name.to_owned());
        },
        Action::OpenTerminal => {
            args.push("enter".to_owned());
            args.push(name.to_owned());
        },
        Action::ShowApplications => {
            return None;
        },
    }
    let r = Invocation { program: tool_program(), args };
    proof {
        assert(Some(r@.args) =~~= action_args(action, name@));
    }
    Some(r)
}

/// Build the detached terminal invocation that enters the box called
/// `name` inside the user's configured terminal emulator.
pub fn terminal_invocation(terminal: &str, name: &str) -> (r: Invocation)
    ensures
        r@.program == terminal@,
        r@.args == terminal_args(name@),
{
    let mut args: Vec<String> = Vec::new();
    args.push("-e".to_owned());
    args.push("distrobox".to_owned());
    args.push("enter".to_owned());
    args.push(name.to_owned());
    let r = Invocation { program: terminal.to_owned(), args };
    proof {
        assert(r@.args =~~= terminal_args(name@));
    }
    r
}

/// The action rows of one box tab, in display order: terminal, upgrade,
/// applications, delete.
pub fn box_row_actions() -> (r: Vec<Action>)
    ensures
        r@ == seq![
            Action::OpenTerminal,
            Action::Upgrade,
            Action::ShowApplications,
            Action::Delete,
        ],
{
    let mut r: Vec<Action> = Vec::new();
    r.push(Action::OpenTerminal);
    r.push(Action::Upgrade);
    r.push(Action::ShowApplications);
    r.push(Action::Delete);
    proof {
        assert(r@ =~= seq![
            Action::OpenTerminal,
            Action::Upgrade,
            Action::ShowApplications,
            Action::Delete,
        ]);
    }
    r
}

/// Per-row binding of a box name to one action, handed to that row's
/// handler instead of being captured ambiently.
#[derive(Debug, Clone, PartialEq, Eq)]
pub struct RowContext {
    /// The box this row belongs to.
    pub box_name: String,
    /// The action its button dispatches.
    pub action: Action,
}

impl RowContext {
    /// The invocation this row's button dispatches, pinned by
    /// [`action_args`] exactly as a direct dispatch would be.
    pub fn plan(&self) -> (r: Option<Invocation>)
        ensures
            match r {
                Some(inv) => inv@.program == tool_name() && Some(inv@.args) == action_args(
                    self.action,
                    self.box_name@,
                ),
                None => action_args(self.action, self.box_name@) is None,
            },
    {
        action_invocation(self.action, self.box_name.as_str())
    }
}

/// The confirmation gate in front of deletion: only the dialog response
/// `"delete"` authorizes it; any other response — `"cancel"`, the default,
/// included — does not.
pub fn confirm_delete(response: &str) -> (r: bool)
    ensures
        r == (response@ == "delete"@),
{
    str_eq(response, "delete")
}

/// Decide deletion from the dialog response: the deletion invocation is
/// issued if and only if the response is exactly `"delete"`.
pub fn delete_plan(name: &str, response: &str) -> (r: Option<Invocation>)
    ensures
        response@ == "delete"@ ==> (r matches Some(inv) && inv@.program == tool_name() && Some(
            inv@.args,
        ) == action_args(Action::Delete, name@)),
        response@ != "delete"@ ==> r is None,
{
    if confirm_delete(response) {
        action_invocation(Action::Delete, name)
    } else {
        None
    }
}

/// Why a dispatched action failed.
#[derive(Debug, Clone, PartialEq, Eq)]
pub struct ActionFailed {
    /// The action that was dispatched.
    pub action: Action,
    /// The box it addressed.
    pub box_name: String,
    /// The observed exit code; `None` when the process could not be
    /// launched at all.
    pub exit_code: Option<i32>,
}

/// Map an observed exit status to the reported outcome: `Ok` if and only
/// if the subprocess was launched and exited zero; every failure carries
/// the action, the box name and the observed code, and is a returned
/// value, never a fault.
pub fn action_outcome(action: Action, box_name: &str, exit_code: Option<i32>) -> (r: Result<
    (),
    ActionFailed,
>)
    ensures
        r is Ok <==> exit_code == Some(0i32),
        r matches Err(f) ==> f.action == action && f.box_name@ == box_name@ && f.exit_code
            == exit_code,
{
    match exit_code {
        Some(0i32) => Ok(()),
        _ => Err(ActionFailed { action, box_name: box_name.to_owned(), exit_code }),
    }
}

} // verus!
