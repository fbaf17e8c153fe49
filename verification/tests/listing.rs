use eph::listing::{listing_lines, script_names, DirEntry};

fn entry(name: &str, is_file: bool) -> DirEntry {
    DirEntry { name: name.to_string(), is_file }
}

#[test]
fn empty_directory_prints_exactly_no_scripts_found() {
    let names = script_names(&vec![]);
    assert!(names.is_empty());
    assert_eq!(listing_lines(&names), vec!["No scripts found.".to_string()]);
}

#[test]
fn hidden_files_and_trash_print_no_scripts_found() {
    let entries = vec![entry(".hidden", true), entry("trash", false)];
    let names = script_names(&entries);
    assert!(names.is_empty());
    assert_eq!(listing_lines(&names), vec!["No scripts found.".to_string()]);
}

#[test]
fn one_script_beside_hidden_and_trash_lists_exactly_foo() {
    let entries = vec![entry("foo", true), entry(".hidden", true), entry("trash", false)];
    let names = script_names(&entries);
    assert_eq!(names, vec!["foo".to_string()]);
    let lines = listing_lines(&names);
    assert_eq!(lines, vec!["Available scripts:".to_string(), "- foo".to_string()]);
}

#[test]
fn a_file_named_trash_is_never_listed() {
    let entries = vec![entry("trash", true), entry("bar", true)];
    assert_eq!(script_names(&entries), vec!["bar".to_string()]);
}

#[test]
fn subdirectories_are_not_scripts() {
    let entries = vec![entry("subdir", false), entry("bar", true)];
    assert_eq!(script_names(&entries), vec!["bar".to_string()]);
}

#[test]
fn listing_keeps_the_given_order() {
    let entries = vec![
        entry("b", true),
        entry(".a", true),
        entry("a", true),
        entry("trash", false),
        entry("c", true),
    ];
    let names = script_names(&entries);
    assert_eq!(names, vec!["b".to_string(), "a".to_string(), "c".to_string()]);
    assert_eq!(
        listing_lines(&names),
        vec![
            "Available scripts:".to_string(),
            "- b".to_string(),
            "- a".to_string(),
            "- c".to_string(),
        ]
    );
}
