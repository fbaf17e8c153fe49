//! Which directory entries count as scripts, and the exact lines the
//! list command prints.

use vstd::prelude::*;
use vstd::string::StringExecFns;
use vstd::string::StrSliceExecFns;

verus! {

/// One direct entry of the script directory, as the caller observed it:
/// the entry's file name and whether it is a regular file.
pub struct DirEntry {
    pub name: String,
    pub is_file: bool,
}

/// A name is listed when it is not hidden (no leading dot) and is not
/// the reserved name of the trash subdirectory.
pub open spec fn is_listed_name(name: Seq<char>) -> bool {
    !(name.len() > 0 && name[0] == '.') && name != "trash"@
}

/// An entry counts as a script exactly when it is a regular file whose
/// name is listed.
pub open spec fn is_script_entry(e: DirEntry) -> bool {
    e.is_file && is_listed_name(e.name@)
}

/// The names of the scripts among the given entries, in the order given.
pub open spec fn listed_names(entries: Seq<DirEntry>) -> Seq<Seq<char>> {
    entries.filter(|e: DirEntry| is_script_entry(e)).map_values(|e: DirEntry| e.name@)
}

proof fn lemma_listed_names_push(s: Seq<DirEntry>, x: DirEntry)
    ensures
        is_script_entry(x) ==> listed_names(s.push(x)) == listed_names(s).push(x.name@),
        !is_script_entry(x) ==> listed_names(s.push(x)) == listed_names(s),
{
    reveal(Seq::filter);
    assert(s.push(x).drop_last() =~= s);
    assert(s.push(x).last() == x);
    if is_script_entry(x) {
        assert(listed_names(s.push(x)) =~~= listed_names(s).push(x.name@));
    } else {
        assert(listed_names(s.push(x)) =~~= listed_names(s));
    }
}

/// Keep, of the observed entries, exactly the script names: regular
/// files whose names do not start with a dot and are not `trash`, in
/// the order the entries came.
pub fn script_names(entries: &Vec<DirEntry>) -> (r: Vec<String>)
    ensures
        r.deep_view() == listed_names(entries@),
{
    let trash = String::from_str("trash");
    let mut r: Vec<String> = Vec::new();
    proof {
        reveal(Seq::filter);
        assert(entries@.take(0) =~= Seq::<DirEntry>::empty());
        assert(r.deep_view() =~~= listed_names(entries@.take(0)));
    }
    let mut i: usize = 0;
    while i < entries.len()
        invariant
            i <= entries.len(),
            trash@ == "trash"@,
            r.deep_view() == listed_names(entries@.take(i as int)),
        decreases entries.len() - i,
    {
        let e = &entries[i];
        let s = e.name.as_str();
        let hidden = s.unicode_len() > 0 && s.get_char(0) == '.';
        let is_trash = e.name == trash;
        let ghost r_before = r.deep_view();
        if e.is_file && !hidden && !is_trash {
            r.push(e.name.clone());
            proof {
                assert(r.deep_view() =~~= r_before.push(e.name@));
            }
        }
        proof {
            assert(entries@.take(i as int + 1) =~= entries@.take(i as int).push(
                entries@[i as int],
            ));
            lemma_listed_names_push(entries@.take(i as int), entries@[i as int]);
        }
        i = i + 1;
    }
    proof {
        assert(entries@.take(entries@.len() as int) =~= entries@);
    }
    r
}

/// One listing line for one script name.
pub open spec fn listing_line(name: Seq<char>) -> Seq<char> {
    "- "@ + name
}

/// The listing lines for a sequence of script names.
pub open spec fn listing_body(names: Seq<Seq<char>>) -> Seq<Seq<char>> {
    names.map_values(|n: Seq<char>| listing_line(n))
}

/// Everything the list command prints, line by line: with no scripts,
/// exactly one line saying so; otherwise a header and one line per
/// script.
pub open spec fn listing_lines_spec(names: Seq<Seq<char>>) -> Seq<Seq<char>> {
    if names.len() == 0 {
        seq!["No scripts found."@]
    } else {
        seq!["Available scripts:"@] + listing_body(names)
    }
}

/// Render the listing for the given script names.
pub fn listing_lines(names: &Vec<String>) -> (r: Vec<String>)
    ensures
        r.deep_view() == listing_lines_spec(names.deep_view()),
{
    let mut r: Vec<String> = Vec::new();
    if names.len() == 0 {
        r.push(String::from_str("No scripts found."));
        proof {
            assert(r.deep_view() =~~= listing_lines_spec(names.deep_view()));
        }
        r
    } else {
        r.push(String::from_str("Available scripts:"));
        proof {
            assert(names.deep_view().take(0) =~= Seq::<Seq<char>>::empty());
            assert(r.deep_view() =~~= seq!["Available scripts:"@] + listing_body(
                names.deep_view().take(0),
            ));
        }
        let mut i: usize = 0;
        while i < names.len()
            invariant
                i <= names.len(),
                r.deep_view() == seq!["Available scripts:"@] + listing_body(
                    names.deep_view().take(i as int),
                ),
            decreases names.len() - i,
        {
            let line = String::from_str("- ").concat(names[i].as_str());
            let ghost r_before = r.deep_view();
            r.push(line);
            proof {
                assert(names.deep_view().take(i as int + 1) =~= names.deep_view().take(
                    i as int,
                ).push(names@[i as int]@));
                assert(r.deep_view() =~~= r_before.push(listing_line(names@[i as int]@)));
                assert(listing_body(names.deep_view().take(i as int).push(names@[i as int]@))
                    =~~= listing_body(names.deep_view().take(i as int)).push(
                    listing_line(names@[i as int]@),
                ));
            }
            i = i + 1;
        }
        proof {
            assert(names.deep_view().take(names@.len() as int) =~= names.deep_view());
        }
        r
    }
}

} // verus!
