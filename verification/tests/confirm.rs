use wayfinder::entry::FileEntry;
use wayfinder::state::{App, FsAction, InputMode, Key, Outcome};

fn entry(name: &str, is_dir: bool) -> FileEntry {
    FileEntry { name: name.to_string(), is_dir, size: None, modified: None }
}

fn app_with(entries: Vec<FileEntry>) -> App {
    let (mut app, scan) = App::new("/base".to_string(), App::default_aliases());
    app.handle_scan_result("/base", scan.token, Ok(entries));
    app
}

#[test]
fn delete_asks_for_confirmation_first() {
    let mut app = app_with(vec![entry("a.txt", false)]);
    let outcome = app.run_command("delete");
    assert!(matches!(outcome, Outcome::Done));
    match &app.input_mode {
        InputMode::Confirm { message, .. } => assert_eq!(message, "Delete 'a.txt'?"),
        _ => panic!("expected confirm mode"),
    }
}

#[test]
fn pressing_n_cancels_and_leaves_everything_unchanged() {
    let mut app = app_with(vec![entry("a.txt", false), entry("b.txt", false)]);
    app.run_command("delete");
    let names_before: Vec<String> = app.entries.iter().map(|e| e.name.clone()).collect();
    let outcome = app.handle_key_event(Key::Char('n'));
    assert!(matches!(outcome, Outcome::Done));
    assert!(matches!(app.input_mode, InputMode::Normal));
    assert_eq!(app.status, "Action canceled");
    let names_after: Vec<String> = app.entries.iter().map(|e| e.name.clone()).collect();
    assert_eq!(names_before, names_after);
}

#[test]
fn pressing_y_removes_exactly_the_confirmed_entry() {
    let mut app = app_with(vec![entry("a.txt", false), entry("b.txt", false)]);
    app.move_selection(1);
    app.run_command("delete");
    let outcome = app.handle_key_event(Key::Char('y'));
    match outcome {
        Outcome::Perform(FsAction::RemoveFile { path }) => assert_eq!(path, "/base/b.txt"),
        _ => panic!("expected a file removal"),
    }
    let outcome = app.action_done(Ok(()));
    match outcome {
        Outcome::Scan(scan) => {
            let token = scan.token;
            app.handle_scan_result("/base", token, Ok(vec![entry("a.txt", false)]));
        },
        _ => panic!("expected a refresh scan"),
    }
    assert_eq!(app.status, "Deleted b.txt");
}

#[test]
fn confirmed_path_survives_interim_changes() {
    let mut app = app_with(vec![entry("a.txt", false), entry("b.txt", false)]);
    app.move_selection(1);
    app.run_command("delete");
    let scan = app.refresh_async(false);
    app.handle_scan_result(
        "/base",
        scan.token,
        Ok(vec![entry("a.txt", false), entry("b.txt", false), entry("c.txt", false)]),
    );
    app.move_selection(-1);
    let outcome = app.handle_confirm_mode(Key::Enter);
    match outcome {
        Outcome::Perform(FsAction::RemoveFile { path }) => assert_eq!(path, "/base/b.txt"),
        _ => panic!("expected a file removal of the confirmed path"),
    }
}

#[test]
fn other_keys_are_ignored_while_confirming() {
    let mut app = app_with(vec![entry("a.txt", false)]);
    app.run_command("delete");
    app.handle_key_event(Key::Char('j'));
    app.handle_key_event(Key::Char('x'));
    assert!(matches!(app.input_mode, InputMode::Confirm { .. }));
}

#[test]
fn directory_deletion_uses_recursive_removal() {
    let mut app = app_with(vec![entry("docs", true)]);
    app.run_command("delete");
    let outcome = app.handle_key_event(Key::Enter);
    match outcome {
        Outcome::Perform(FsAction::RemoveDir { path }) => assert_eq!(path, "/base/docs"),
        _ => panic!("expected a directory removal"),
    }
}

#[test]
fn failed_removal_is_reported() {
    let mut app = app_with(vec![entry("a.txt", false)]);
    app.run_command("delete");
    app.handle_key_event(Key::Char('Y'));
    let outcome = app.action_done(Err("removing file a.txt: denied".to_string()));
    assert!(matches!(outcome, Outcome::Done));
    assert_eq!(app.status, "Action failed: removing file a.txt: denied");
}
