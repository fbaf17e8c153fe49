use eph::dispatch::{no_command_message, select_action, Action};

fn s(x: &str) -> String {
    x.to_string()
}

#[test]
fn list_wins_over_everything() {
    let a = select_action(
        true,
        Some(s("e")),
        Some(s("n")),
        Some(s("d")),
        Some(s("r")),
        vec![s("x")],
    );
    assert!(matches!(a, Action::ListScripts));
}

#[test]
fn edit_wins_over_new_delete_run() {
    let a = select_action(false, Some(s("e")), Some(s("n")), Some(s("d")), Some(s("r")), vec![]);
    match a {
        Action::EditScript { name } => assert_eq!(name, "e"),
        _ => panic!("expected edit"),
    }
}

#[test]
fn new_wins_over_delete_and_run() {
    let a = select_action(false, None, Some(s("n")), Some(s("d")), Some(s("r")), vec![]);
    match a {
        Action::CreateScript { name } => assert_eq!(name, "n"),
        _ => panic!("expected create"),
    }
}

#[test]
fn delete_wins_over_run() {
    let a = select_action(false, None, None, Some(s("d")), Some(s("r")), vec![]);
    match a {
        Action::DeleteScript { name } => assert_eq!(name, "d"),
        _ => panic!("expected delete"),
    }
}

#[test]
fn positional_runs_with_args() {
    let a = select_action(false, None, None, None, Some(s("deploy")), vec![s("a"), s("b")]);
    match a {
        Action::RunScript { name, args } => {
            assert_eq!(name, "deploy");
            assert_eq!(args, vec![s("a"), s("b")]);
        }
        _ => panic!("expected run"),
    }
}

#[test]
fn nothing_selected_is_no_command() {
    let a = select_action(false, None, None, None, None, vec![]);
    assert!(matches!(a, Action::NoCommand));
    assert_eq!(no_command_message(), "No valid command provided. Use --help for usage.");
}
