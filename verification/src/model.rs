//! A model of the script directory — the regular files it holds and the
//! files in its trash subdirectory — with the lifecycle transitions and
//! the laws they obey. The planners fix which filesystem effects the
//! caller performs; these transitions say what those effects do to the
//! directory, and the lemmas state the guarantees: what create adds,
//! what it must never overwrite, and what delete moves where.

use vstd::prelude::*;
use crate::lifecycle::template_content;
use crate::lifecycle::SCRIPT_MODE;
use crate::listing::is_listed_name;

verus! {

/// One file of the script directory: its content and permission bits.
pub ghost struct FileAttrs {
    pub content: Seq<char>,
    pub mode: u32,
}

/// The script directory's observable state: its direct regular files by
/// name, and the files resting in its trash subdirectory by name.
pub ghost struct DirState {
    pub files: Map<Seq<char>, FileAttrs>,
    pub trash: Map<Seq<char>, FileAttrs>,
}

/// The names the list command shows of a directory in this state.
pub open spec fn listed(d: DirState) -> Set<Seq<char>> {
    Set::new(|name: Seq<char>| d.files.contains_key(name) && is_listed_name(name))
}

/// What carrying out the create plan does to the directory: nothing when
/// the name is taken; otherwise a new file with the template content and
/// the script mode appears under that name.
pub open spec fn create_transition(d: DirState, name: Seq<char>) -> DirState {
    if d.files.contains_key(name) {
        d
    } else {
        DirState {
            files: d.files.insert(name, FileAttrs { content: template_content(), mode: SCRIPT_MODE }),
            trash: d.trash,
        }
    }
}

/// What carrying out the delete plan does to the directory: nothing when
/// no file has the name; otherwise the file moves into the trash under
/// the same name, replacing any earlier trashed file of that name.
pub open spec fn delete_transition(d: DirState, name: Seq<char>) -> DirState {
    if !d.files.contains_key(name) {
        d
    } else {
        DirState {
            files: d.files.remove(name),
            trash: d.trash.insert(name, d.files[name]),
        }
    }
}

/// Law: creating a script under a name not yet present adds exactly that
/// file, with the template content and a mode that lets the owner
/// execute it, and leaves every other file and the whole trash as they
/// were.
pub proof fn lemma_create_adds_script(d: DirState, name: Seq<char>)
    requires
        !d.files.contains_key(name),
    ensures
        ({
            let d2 = create_transition(d, name);
            &&& d2.files.contains_key(name)
            &&& d2.files[name].content == template_content()
            &&& d2.files[name].mode == SCRIPT_MODE
            &&& d2.files[name].mode & 0o100 != 0
            &&& forall|other: Seq<char>|
                other != name ==> (#[trigger] d2.files.contains_key(other)
                    <==> d.files.contains_key(other))
            &&& forall|other: Seq<char>|
                other != name && d.files.contains_key(other) ==> #[trigger] d2.files[other]
                    == d.files[other]
            &&& d2.trash == d.trash
        }),
{
    assert(SCRIPT_MODE & 0o100 != 0) by (bit_vector);
}

/// Law: creating a script whose name is already present changes nothing
/// — in particular it never overwrites the existing file's content or
/// mode.
pub proof fn lemma_create_existing_unchanged(d: DirState, name: Seq<char>)
    requires
        d.files.contains_key(name),
    ensures
        create_transition(d, name) == d,
{
}

/// Law: deleting an existing script removes it from the directory and so
/// from the listing, places its file under the same name in the trash,
/// and leaves every trashed file of any other name untouched.
pub proof fn lemma_delete_moves_to_trash(d: DirState, name: Seq<char>)
    requires
        d.files.contains_key(name),
    ensures
        ({
            let d2 = delete_transition(d, name);
            &&& !d2.files.contains_key(name)
            &&& !listed(d2).contains(name)
            &&& d2.trash.contains_key(name)
            &&& d2.trash[name] == d.files[name]
            &&& forall|other: Seq<char>|
                other != name ==> (#[trigger] d2.trash.contains_key(other)
                    <==> d.trash.contains_key(other))
            &&& forall|other: Seq<char>|
                other != name && d.trash.contains_key(other) ==> #[trigger] d2.trash[other]
                    == d.trash[other]
        }),
{
}

/// Law: deleting one script and then a second, different one never
/// disturbs the first script's trashed file.
pub proof fn lemma_second_delete_keeps_trash(d: DirState, first: Seq<char>, second: Seq<char>)
    requires
        first != second,
        d.files.contains_key(first),
    ensures
        ({
            let d2 = delete_transition(delete_transition(d, first), second);
            &&& d2.trash.contains_key(first)
            &&& d2.trash[first] == d.files[first]
        }),
{
}

/// Law: deleting a name that no script carries changes nothing, so the
/// listing stays exactly as it was; the planner reports the miss
/// instead.
pub proof fn lemma_delete_missing_unchanged(d: DirState, name: Seq<char>)
    requires
        !d.files.contains_key(name),
    ensures
        delete_transition(d, name) == d,
        listed(delete_transition(d, name)) == listed(d),
{
}

} // verus!
