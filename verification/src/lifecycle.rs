//! The four script-lifecycle operations, as plans: each planner takes
//! what the caller observed of the filesystem (does the named script
//! exist?) and returns exactly which effects to carry out and which
//! messages to print. The caller performs the effects; the planners fix
//! the paths, the file content and mode, and every message, to the
//! character.

use vstd::prelude::*;
use vstd::string::StringExecFns;

verus! {

/// The content every new script starts with.
pub open spec fn template_content() -> Seq<char> {
    "#!/bin/zsh\n\n"@
}

/// The permission bits a new script is given: owner read/write/execute,
/// group and others read/execute.
pub const SCRIPT_MODE: u32 = 0o755;

/// A name joined under a directory.
pub open spec fn joined(dir: Seq<char>, name: Seq<char>) -> Seq<char> {
    dir + "/"@ + name
}

/// The trash subdirectory of a script directory.
pub open spec fn trash_dir_of(dir: Seq<char>) -> Seq<char> {
    dir + "/trash"@
}

/// Where a deleted script of the given name comes to rest.
pub open spec fn trashed_path(dir: Seq<char>, name: Seq<char>) -> Seq<char> {
    dir + "/trash/"@ + name
}

pub open spec fn create_exists_message() -> Seq<char> {
    "Script already exists. Use -e to edit."@
}

pub open spec fn edit_missing_message() -> Seq<char> {
    "Script does not exist. Use -n to create a new script."@
}

pub open spec fn missing_script_message(name: Seq<char>) -> Seq<char> {
    "Script '"@ + name + "' does not exist."@
}

pub open spec fn delete_success_message(name: Seq<char>) -> Seq<char> {
    "Script '"@ + name + "' moved to trash."@
}

/// Join a script name under a directory.
pub fn join_path(dir: &str, name: &str) -> (r: String)
    ensures
        r@ == joined(dir@, name@),
{
    String::from_str(dir).concat("/").concat(name)
}

/// A request to open the editor on one path: the program to spawn and
/// the single argument to hand it, with standard streams inherited.
pub struct EditorInvocation {
    pub program: String,
    pub path: String,
}

/// Build the editor invocation for a script path.
pub fn editor_invocation(editor: &str, script_path: &str) -> (r: EditorInvocation)
    ensures
        r.program@ == editor@,
        r.path@ == script_path@,
{
    EditorInvocation { program: String::from_str(editor), path: String::from_str(script_path) }
}

/// What creating a script comes to.
pub enum CreatePlan {
    /// The name is taken: print the message to standard error and touch
    /// nothing.
    AlreadyExists { message: String },
    /// Write a new file at `path` with `content`, set its mode to
    /// `mode`, then open the editor.
    WriteNew { path: String, content: String, mode: u32, editor: EditorInvocation },
}

/// Plan the create operation. `exists` is whether a file of that name is
/// already in the script directory.
pub fn plan_create(dir: &str, name: &str, exists: bool, editor: &str) -> (r: CreatePlan)
    ensures
        exists ==> (r matches CreatePlan::AlreadyExists { message } && message@
            == create_exists_message()),
        !exists ==> (r matches CreatePlan::WriteNew { path, content, mode, editor: ed }
            && path@ == joined(dir@, name@)
            && content@ == template_content()
            && mode == SCRIPT_MODE
            && ed.program@ == editor@
            && ed.path@ == joined(dir@, name@)),
{
    if exists {
        CreatePlan::AlreadyExists {
            message: String::from_str("Script already exists. Use -e to edit."),
        }
    } else {
        let path = join_path(dir, name);
        let editor = editor_invocation(editor, path.as_str());
        CreatePlan::WriteNew {
            path,
            content: String::from_str("#!/bin/zsh\n\n"),
            mode: SCRIPT_MODE,
            editor,
        }
    }
}

/// What editing a script comes to.
pub enum EditPlan {
    /// No such script: print the message to standard error and touch
    /// nothing.
    NotFound { message: String },
    /// Open the editor on the existing file.
    OpenEditor { editor: EditorInvocation },
}

/// Plan the edit operation.
pub fn plan_edit(dir: &str, name: &str, exists: bool, editor: &str) -> (r: EditPlan)
    ensures
        !exists ==> (r matches EditPlan::NotFound { message } && message@
            == edit_missing_message()),
        exists ==> (r matches EditPlan::OpenEditor { editor: ed }
            && ed.program@ == editor@
            && ed.path@ == joined(dir@, name@)),
{
    if exists {
        let path = join_path(dir, name);
        let editor = editor_invocation(editor, path.as_str());
        EditPlan::OpenEditor { editor }
    } else {
        EditPlan::NotFound {
            message: String::from_str("Script does not exist. Use -n to create a new script."),
        }
    }
}

/// What deleting a script comes to.
pub enum DeletePlan {
    /// No such script: print the message to standard error and touch
    /// nothing.
    NotFound { message: String },
    /// Make sure `trash_dir` exists, rename `from` to `to` (replacing
    /// any earlier trashed file of that name), and print the message to
    /// standard output.
    MoveToTrash { trash_dir: String, from: String, to: String, message: String },
}

/// Plan the delete operation: a soft delete, by rename into the trash
/// subdirectory under the same name.
pub fn plan_delete(dir: &str, name: &str, exists: bool) -> (r: DeletePlan)
    ensures
        !exists ==> (r matches DeletePlan::NotFound { message } && message@
            == missing_script_message(name@)),
        exists ==> (r matches DeletePlan::MoveToTrash { trash_dir, from, to, message }
            && trash_dir@ == trash_dir_of(dir@)
            && from@ == joined(dir@, name@)
            && to@ == trashed_path(dir@, name@)
            && message@ == delete_success_message(name@)),
{
    if exists {
        let trash_dir = String::from_str(dir).concat("/trash");
        let to = String::from_str(dir).concat("/trash/").concat(name);
        let message = String::from_str("Script '").concat(name).concat("' moved to trash.");
        DeletePlan::MoveToTrash { trash_dir, from: join_path(dir, name), to, message }
    } else {
        DeletePlan::NotFound {
            message: String::from_str("Script '").concat(name).concat("' does not exist."),
        }
    }
}

/// What running a script comes to.
pub enum RunPlan {
    /// No such script: print the message to standard error and spawn
    /// nothing.
    NotFound { message: String },
    /// Spawn `path` as a child process with exactly `args` as its
    /// arguments, in the caller's current working directory, standard
    /// streams inherited, and wait for it.
    Spawn { path: String, args: Vec<String> },
}

/// Plan the run operation.
pub fn plan_run(dir: &str, name: &str, exists: bool, args: Vec<String>) -> (r: RunPlan)
    ensures
        !exists ==> (r matches RunPlan::NotFound { message } && message@
            == missing_script_message(name@)),
        exists ==> (r matches RunPlan::Spawn { path, args: a }
            && path@ == joined(dir@, name@)
            && a == args),
{
    if exists {
        RunPlan::Spawn { path: join_path(dir, name), args }
    } else {
        RunPlan::NotFound {
            message: String::from_str("Script '").concat(name).concat("' does not exist."),
        }
    }
}

/// What the dispatcher does once a child process has exited: possibly a
/// note on standard error, and its own exit status, which is always 0 —
/// a child's failure is informational, never propagated.
pub struct ChildReport {
    pub failure_note: Option<String>,
    pub exit_code: i32,
}

pub open spec fn run_failure_note(status_text: Seq<char>) -> Seq<char> {
    "Script exited with status: "@ + status_text
}

pub open spec fn editor_failure_note(status_text: Seq<char>) -> Seq<char> {
    "Editor exited with status: "@ + status_text
}

/// Follow up on a script child: note a failure with the child's status,
/// rendered by the caller, and still exit 0.
pub fn run_followup(child_ok: bool, status_text: &str) -> (r: ChildReport)
    ensures
        r.exit_code == 0,
        child_ok ==> r.failure_note is None,
        !child_ok ==> (r.failure_note matches Some(m) && m@ == run_failure_note(status_text@)),
{
    let failure_note = if child_ok {
        None
    } else {
        Some(String::from_str("Script exited with status: ").concat(status_text))
    };
    ChildReport { failure_note, exit_code: 0 }
}

/// Follow up on an editor child, in the same way.
pub fn editor_followup(child_ok: bool, status_text: &str) -> (r: ChildReport)
    ensures
        r.exit_code == 0,
        child_ok ==> r.failure_note is None,
        !child_ok ==> (r.failure_note matches Some(m) && m@ == editor_failure_note(status_text@)),
{
    let failure_note = if child_ok {
        None
    } else {
        Some(String::from_str("Editor exited with status: ").concat(status_text))
    };
    ChildReport { failure_note, exit_code: 0 }
}

} // verus!
