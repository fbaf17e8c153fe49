//! Command selection: which of the five actions a set of command-line
//! options picks, in a fixed precedence order.

use vstd::prelude::*;
use vstd::string::StringExecFns;

verus! {

/// The action one invocation performs. Exactly one is selected, then the
/// process exits.
pub enum Action {
    ListScripts,
    EditScript { name: String },
    CreateScript { name: String },
    DeleteScript { name: String },
    RunScript { name: String, args: Vec<String> },
    NoCommand,
}

/// Select the action from the parsed options. Precedence, first match
/// wins: list, edit, new, delete, a positional script name with its
/// arguments; with none of these, no command was given.
pub fn select_action(
    list: bool,
    edit: Option<String>,
    new: Option<String>,
    delete: Option<String>,
    script: Option<String>,
    args: Vec<String>,
) -> (r: Action)
    ensures
        list ==> r == Action::ListScripts,
        !list ==> (edit matches Some(n) ==> r matches Action::EditScript { name } && name == n),
        !list && edit is None ==> (new matches Some(n) ==> r matches Action::CreateScript { name }
            && name == n),
        !list && edit is None && new is None ==> (delete matches Some(n) ==> r matches
            Action::DeleteScript { name } && name == n),
        !list && edit is None && new is None && delete is None ==> (script matches Some(n) ==> r
            matches Action::RunScript { name, args: a } && name == n && a == args),
        !list && edit is None && new is None && delete is None && script is None ==> r
            == Action::NoCommand,
{
    if list {
        Action::ListScripts
    } else if let Some(name) = edit {
        Action::EditScript { name }
    } else if let Some(name) = new {
        Action::CreateScript { name }
    } else if let Some(name) = delete {
        Action::DeleteScript { name }
    } else if let Some(name) = script {
        Action::RunScript { name, args }
    } else {
        Action::NoCommand
    }
}

/// The complaint printed to standard error when no action was selected.
pub fn no_command_message() -> (r: String)
    ensures
        r@ == "No valid command provided. Use --help for usage."@,
{
    String::from_str("No valid command provided. Use --help for usage.")
}

} // verus!
