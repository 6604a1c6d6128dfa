use wayfinder::entry::FileEntry;
use wayfinder::state::{App, ExternalCommand, FsAction, InputMode, Outcome};

fn entry(name: &str, is_dir: bool) -> FileEntry {
    FileEntry { name: name.to_string(), is_dir, size: None, modified: None }
}

fn app_with(entries: Vec<FileEntry>) -> App {
    let (mut app, scan) = App::new("/base".to_string(), App::default_aliases());
    app.handle_scan_result("/base", scan.token, Ok(entries));
    app
}

#[test]
fn rename_collision_aborts_before_any_action() {
    let mut app = app_with(vec![entry("a.txt", false), entry("b.txt", false)]);
    let outcome = app.run_command("rename b.txt");
    let dest = match outcome {
        Outcome::CheckExists { path } => path,
        other => panic!("expected an existence check, got {:?}", kind_of(&other)),
    };
    assert_eq!(dest, "/base/b.txt");
    let names_before: Vec<String> = app.entries.iter().map(|e| e.name.clone()).collect();
    let outcome = app.answer_exists(true);
    assert!(matches!(outcome, Outcome::Done));
    assert_eq!(app.status, "Rename failed: A file named 'b.txt' already exists");
    let names_after: Vec<String> = app.entries.iter().map(|e| e.name.clone()).collect();
    assert_eq!(names_before, names_after);
}

fn kind_of(o: &Outcome) -> &'static str {
    match o {
        Outcome::Quit => "quit",
        Outcome::Done => "done",
        Outcome::Scan(_) => "scan",
        Outcome::CheckExists { .. } => "check-exists",
        Outcome::CheckIsDir { .. } => "check-is-dir",
        Outcome::Resolve { .. } => "resolve",
        Outcome::Perform(_) => "perform",
    }
}

#[test]
fn rename_free_destination_yields_the_rename_action() {
    let mut app = app_with(vec![entry("a.txt", false)]);
    let outcome = app.run_command("rename fresh.txt");
    assert!(matches!(outcome, Outcome::CheckExists { .. }));
    let outcome = app.answer_exists(false);
    match outcome {
        Outcome::Perform(FsAction::Rename { src, dest }) => {
            assert_eq!(src, "/base/a.txt");
            assert_eq!(dest, "/base/fresh.txt");
        },
        other => panic!("expected a rename action, got {:?}", kind_of(&other)),
    }
    let outcome = app.action_done(Ok(()));
    match outcome {
        Outcome::Scan(scan) => assert_eq!(scan.path, "/base"),
        other => panic!("expected a refresh scan, got {:?}", kind_of(&other)),
    }
    app.handle_scan_result("/base", app.pending_token.unwrap(), Ok(vec![entry("fresh.txt", false)]));
    assert_eq!(app.status, "Renamed a.txt -> fresh.txt");
}

#[test]
fn rename_validation_errors() {
    let mut app = app_with(vec![entry("a.txt", false)]);
    app.run_command("rename a.txt");
    assert_eq!(app.status, "Rename failed: Name is unchanged");
    app.run_command("rename ..");
    assert_eq!(app.status, "Rename failed: Invalid name '..'");
    app.run_command("rename sub/dir");
    assert_eq!(app.status, "Rename failed: Name cannot contain path separators");
    app.run_command("rename");
    assert_eq!(app.status, "Usage: :rename <new_name>");
}

#[test]
fn rename_without_selection_fails() {
    let (mut app, _) = App::new("/base".to_string(), App::default_aliases());
    app.run_command("rename x");
    assert_eq!(app.status, "Rename failed: No selection to rename");
}

#[test]
fn mkdir_collision_aborts_and_free_name_creates() {
    let mut app = app_with(vec![entry("docs", true)]);
    let outcome = app.run_command("mkdir docs");
    assert!(matches!(outcome, Outcome::CheckExists { .. }));
    app.answer_exists(true);
    assert_eq!(app.status, "mkdir failed: 'docs' already exists");

    let outcome = app.run_command("mkdir fresh");
    assert!(matches!(outcome, Outcome::CheckExists { .. }));
    match app.answer_exists(false) {
        Outcome::Perform(FsAction::CreateDir { path }) => assert_eq!(path, "/base/fresh"),
        other => panic!("expected create-dir, got {:?}", kind_of(&other)),
    }
}

#[test]
fn touch_creates_an_empty_file() {
    let mut app = app_with(vec![entry("a.txt", false)]);
    let outcome = app.run_command("touch notes.md");
    assert!(matches!(outcome, Outcome::CheckExists { .. }));
    match app.answer_exists(false) {
        Outcome::Perform(FsAction::CreateFile { path }) => assert_eq!(path, "/base/notes.md"),
        other => panic!("expected create-file, got {:?}", kind_of(&other)),
    }
}

#[test]
fn copy_resolves_directory_destinations() {
    let mut app = app_with(vec![entry("a.txt", false)]);
    let outcome = app.run_command("copy dest");
    let probe = match outcome {
        Outcome::CheckIsDir { path } => path,
        other => panic!("expected an is-dir check, got {:?}", kind_of(&other)),
    };
    assert_eq!(probe, "/base/dest");
    let outcome = app.answer_is_dir(true);
    match &outcome {
        Outcome::CheckExists { path } => assert_eq!(path, "/base/dest/a.txt"),
        other => panic!("expected an existence check, got {:?}", kind_of(other)),
    }
    match app.answer_exists(false) {
        Outcome::Perform(FsAction::CopyFile { src, dest }) => {
            assert_eq!(src, "/base/a.txt");
            assert_eq!(dest, "/base/dest/a.txt");
        },
        other => panic!("expected copy-file, got {:?}", kind_of(&other)),
    }
}

#[test]
fn copy_trailing_separator_hints_a_directory() {
    let mut app = app_with(vec![entry("a.txt", false)]);
    let outcome = app.run_command("copy backup/");
    match &outcome {
        Outcome::CheckExists { path } => assert_eq!(path, "/base/backup/a.txt"),
        other => panic!("expected an existence check, got {:?}", kind_of(other)),
    }
}

#[test]
fn copy_existing_destination_aborts() {
    let mut app = app_with(vec![entry("a.txt", false)]);
    app.run_command("copy /elsewhere/a.txt");
    app.answer_is_dir(false);
    app.answer_exists(true);
    assert_eq!(app.status, "copy failed: Destination /elsewhere/a.txt already exists");
}

#[test]
fn move_directory_yields_a_directory_move() {
    let mut app = app_with(vec![entry("stuff", true)]);
    app.run_command("move /other");
    app.answer_is_dir(false);
    match app.answer_exists(false) {
        Outcome::Perform(FsAction::MoveDir { src, dest }) => {
            assert_eq!(src, "/base/stuff");
            assert_eq!(dest, "/other");
        },
        other => panic!("expected move-dir, got {:?}", kind_of(&other)),
    }
    let outcome = app.action_done(Err("removing stuff: denied".to_string()));
    assert!(matches!(outcome, Outcome::Done));
    assert_eq!(app.status, "move failed: removing stuff: denied");
}

#[test]
fn cd_resolves_and_changes_directory() {
    let mut app = app_with(vec![entry("a.txt", false)]);
    let outcome = app.run_command("cd sub");
    match &outcome {
        Outcome::Resolve { path } => assert_eq!(path, "/base/sub"),
        other => panic!("expected a resolve request, got {:?}", kind_of(other)),
    }
    let outcome = app.answer_resolve(Ok(("/base/sub".to_string(), true)));
    match outcome {
        Outcome::Scan(scan) => assert_eq!(scan.path, "/base/sub"),
        other => panic!("expected a scan, got {:?}", kind_of(&other)),
    }
    assert_eq!(app.current_dir, "/base/sub");
    assert!(app.last_search.is_none());
}

#[test]
fn cd_to_a_file_or_missing_path_reports() {
    let mut app = app_with(vec![entry("a.txt", false)]);
    app.run_command("cd somewhere");
    app.answer_resolve(Ok(("/base/somewhere".to_string(), false)));
    assert_eq!(app.status, "cd failed: /base/somewhere is not a directory");
    assert_eq!(app.current_dir, "/base");

    app.run_command("cd missing");
    app.answer_resolve(Err("resolving directory missing: not found".to_string()));
    assert_eq!(app.status, "cd failed: resolving directory missing: not found");
    assert_eq!(app.current_dir, "/base");
}

#[test]
fn aliases_reach_their_commands() {
    let mut app = app_with(vec![entry("a.txt", false)]);
    app.run_command("rm");
    assert!(matches!(app.input_mode, InputMode::Confirm { .. }));
    assert_eq!(app.status, "Confirm delete with y/n");
}

#[test]
fn command_word_is_case_insensitive() {
    let mut app = app_with(vec![entry("a.txt", false)]);
    app.run_command("PWD");
    assert_eq!(app.status, "/base");
}

#[test]
fn small_commands_and_unknown() {
    let mut app = app_with(vec![entry("a.txt", false)]);
    app.run_command("pwd");
    assert_eq!(app.status, "/base");
    app.run_command("help");
    assert_eq!(
        app.status,
        "Commands: pwd, refresh, rename, delete, mkdir, touch, copy, move, edit, sh, cd, help"
    );
    app.run_command("quit");
    assert_eq!(app.status, "Use 'q' in normal mode to quit");
    app.run_command("frobnicate now");
    assert_eq!(app.status, "Unknown command: frobnicate");
    app.run_command("   ");
    assert_eq!(app.status, "Empty command");
}

#[test]
fn refresh_keeps_entries_until_the_result_lands() {
    let mut app = app_with(vec![entry("a.txt", false)]);
    let outcome = app.run_command("refresh");
    match outcome {
        Outcome::Scan(scan) => {
            assert_eq!(scan.path, "/base");
            assert_eq!(app.entries.len(), 1);
        },
        other => panic!("expected a scan, got {:?}", kind_of(&other)),
    }
    assert_eq!(app.status, "Refresh requested");
}

#[test]
fn edit_and_shell_hand_off_boundary_requests() {
    let mut app = app_with(vec![entry("a.txt", false)]);
    app.run_command("edit");
    match app.take_external_command() {
        Some(ExternalCommand::Edit { path, name }) => {
            assert_eq!(path, "/base/a.txt");
            assert_eq!(name, "a.txt");
        },
        _ => panic!("expected an edit request"),
    }
    assert!(app.take_external_command().is_none());

    app.run_command("sh");
    match app.take_external_command() {
        Some(ExternalCommand::Shell { dir }) => assert_eq!(dir, "/base"),
        _ => panic!("expected a shell request"),
    }

    let mut dir_app = app_with(vec![entry("docs", true)]);
    dir_app.run_command("edit");
    assert_eq!(dir_app.status, "edit failed: Cannot edit a directory");
    assert!(dir_app.take_external_command().is_none());
}

#[test]
fn command_mode_collects_edits_and_commits() {
    let mut app = app_with(vec![entry("a.txt", false)]);
    app.handle_key_event(wayfinder::state::Key::Char(':'));
    assert!(matches!(app.input_mode, InputMode::Command { .. }));
    for c in "pwdd".chars() {
        app.handle_key_event(wayfinder::state::Key::Char(c));
    }
    app.handle_key_event(wayfinder::state::Key::Backspace);
    app.handle_key_event(wayfinder::state::Key::Enter);
    assert!(matches!(app.input_mode, InputMode::Normal));
    assert_eq!(app.status, "/base");
}

#[test]
fn blank_command_commit_asks_for_a_command() {
    let mut app = app_with(vec![entry("a.txt", false)]);
    app.handle_key_event(wayfinder::state::Key::Char(':'));
    app.handle_key_event(wayfinder::state::Key::Char(' '));
    app.handle_key_event(wayfinder::state::Key::Enter);
    match &app.input_mode {
        InputMode::Command { feedback, .. } => {
            assert_eq!(feedback.as_deref(), Some("Enter a command"));
        },
        _ => panic!("expected command mode"),
    }
    app.handle_key_event(wayfinder::state::Key::Esc);
    assert_eq!(app.status, "Command canceled");
    assert!(matches!(app.input_mode, InputMode::Normal));
}

#[test]
fn mkdir_validation_rejects_bad_names() {
    let mut app = app_with(vec![entry("a.txt", false)]);
    app.run_command("mkdir .");
    assert_eq!(app.status, "mkdir failed: Invalid name '.'");
    app.run_command("touch nested\\name");
    assert_eq!(app.status, "touch failed: Name cannot contain path separators");
}
