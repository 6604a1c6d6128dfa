use wayfinder::entry::FileEntry;
use wayfinder::state::{App, Key, Outcome, PreviewTarget};

fn entry(name: &str, is_dir: bool) -> FileEntry {
    FileEntry { name: name.to_string(), is_dir, size: None, modified: None }
}

fn app_with(names: &[&str]) -> App {
    let (mut app, scan) = App::new("/base".to_string(), App::default_aliases());
    let list: Vec<FileEntry> = names.iter().map(|n| entry(n, false)).collect();
    app.handle_scan_result("/base", scan.token, Ok(list));
    app
}

#[test]
fn move_selection_wraps_backward_from_zero() {
    let mut app = app_with(&["a", "b", "c"]);
    assert_eq!(app.selected, 0);
    app.move_selection(-1);
    assert_eq!(app.selected, 2);
}

#[test]
fn move_selection_wraps_forward_past_the_end() {
    let mut app = app_with(&["a", "b", "c"]);
    app.move_selection(1);
    app.move_selection(1);
    app.move_selection(1);
    assert_eq!(app.selected, 0);
    app.move_selection(7);
    assert_eq!(app.selected, 1);
}

#[test]
fn move_selection_on_empty_list_stays_at_zero() {
    let (mut app, _) = App::new("/base".to_string(), App::default_aliases());
    app.move_selection(-5);
    assert_eq!(app.selected, 0);
}

#[test]
fn stale_scan_result_changes_nothing() {
    let mut app = app_with(&["a", "b"]);
    app.move_selection(1);
    let status_before = app.status.clone();
    let selected_before = app.selected;
    app.handle_scan_result("/elsewhere", 999, Ok(vec![entry("zzz", false)]));
    assert_eq!(app.entries.len(), 2);
    assert_eq!(app.selected, selected_before);
    assert_eq!(app.status, status_before);
    app.handle_scan_result("/elsewhere", 999, Err("boom".to_string()));
    assert_eq!(app.entries.len(), 2);
    assert_eq!(app.status, status_before);
}

#[test]
fn current_scan_result_replaces_entries_sorted() {
    let (mut app, scan) = App::new("/base".to_string(), App::default_aliases());
    app.handle_scan_result(
        "/base",
        scan.token,
        Ok(vec![entry("b.txt", false), entry("A", true), entry("a.txt", false)]),
    );
    let names: Vec<&str> = app.entries.iter().map(|e| e.name.as_str()).collect();
    assert_eq!(names, vec!["A", "a.txt", "b.txt"]);
    assert_eq!(app.status, "Loaded 3 entries from /base");
    assert!(app.pending_token.is_none());
}

#[test]
fn failed_scan_clears_entries_and_reports() {
    let (mut app, scan) = App::new("/base".to_string(), App::default_aliases());
    app.handle_scan_result("/base", scan.token, Err("denied".to_string()));
    assert_eq!(app.entries.len(), 0);
    assert_eq!(app.status, "Error loading /base: denied");
}

#[test]
fn numeric_prefix_accumulates_and_caps() {
    let mut app = app_with(&["a", "b", "c"]);
    app.accumulate_count('4');
    app.accumulate_count('2');
    assert_eq!(app.pending_count, Some(42));
    assert_eq!(app.status, "Count: 42");
    for _ in 0..5 {
        app.accumulate_count('9');
    }
    assert_eq!(app.pending_count, Some(9999));
}

#[test]
fn count_scales_movement_and_is_consumed() {
    let mut app = app_with(&["a", "b", "c", "d", "e"]);
    app.accumulate_count('2');
    app.move_selection_by_count(1);
    assert_eq!(app.selected, 2);
    assert_eq!(app.pending_count, None);
    app.move_selection_by_count(1);
    assert_eq!(app.selected, 3);
}

#[test]
fn jump_clamps_to_last_entry() {
    let mut app = app_with(&["a", "b", "c"]);
    app.jump_to_index(99);
    assert_eq!(app.selected, 2);
    app.jump_to_index(1);
    assert_eq!(app.selected, 1);
    app.jump_to_end();
    assert_eq!(app.selected, 2);
}

#[test]
fn entering_a_file_reports_not_a_directory() {
    let mut app = app_with(&["plain.txt"]);
    let scan = app.enter_selection();
    assert!(scan.is_none());
    assert_eq!(app.status, "'plain.txt' is not a directory");
    assert_eq!(app.current_dir, "/base");
}

#[test]
fn entering_a_directory_moves_there_and_issues_a_scan() {
    let (mut app, scan0) = App::new("/base".to_string(), App::default_aliases());
    app.handle_scan_result("/base", scan0.token, Ok(vec![entry("sub", true)]));
    let scan = app.enter_selection().expect("scan issued");
    assert_eq!(scan.path, "/base/sub");
    assert_eq!(app.current_dir, "/base/sub");
    assert_eq!(app.pending_token, Some(scan.token));
    assert!(app.entries.is_empty());
}

#[test]
fn open_parent_walks_up_and_stops_at_root() {
    let (mut app, _) = App::new("/base/sub".to_string(), App::default_aliases());
    let scan = app.open_parent().expect("scan issued");
    assert_eq!(scan.path, "/base");
    assert_eq!(app.current_dir, "/base");
    let scan2 = app.open_parent().expect("scan issued");
    assert_eq!(scan2.path, "/");
    assert_eq!(app.current_dir, "/");
    assert!(app.open_parent().is_none());
    assert_eq!(app.current_dir, "/");
}

#[test]
fn footer_shows_status_count_and_help() {
    let mut app = app_with(&["a"]);
    app.accumulate_count('3');
    let footer = app.footer_text();
    assert!(footer.ends_with("j/k navigate | h/l change dirs | q quit"));
    assert!(footer.contains("count 3 | "));
}

#[test]
fn quit_key_in_normal_mode() {
    let mut app = app_with(&["a"]);
    let outcome = app.handle_key_event(Key::Char('q'));
    assert!(matches!(outcome, Outcome::Quit));
}

#[test]
fn double_g_jumps_to_counted_entry() {
    let mut app = app_with(&["a", "b", "c", "d"]);
    app.handle_key_event(Key::Char('3'));
    app.handle_key_event(Key::Char('g'));
    assert_eq!(app.status, "Press g again to jump to entry");
    app.handle_key_event(Key::Char('g'));
    assert_eq!(app.selected, 2);
    assert_eq!(app.pending_count, None);
}

#[test]
fn capital_g_without_count_jumps_to_end() {
    let mut app = app_with(&["a", "b", "c", "d"]);
    app.handle_key_event(Key::Char('G'));
    assert_eq!(app.selected, 3);
}

#[test]
fn leading_zero_starts_a_zero_count() {
    let mut app = app_with(&["a", "b"]);
    app.handle_key_event(Key::Char('0'));
    assert_eq!(app.pending_count, Some(0));
    assert_eq!(app.status, "Count: 0");
    app.handle_key_event(Key::Char('1'));
    app.handle_key_event(Key::Char('0'));
    assert_eq!(app.pending_count, Some(10));
}

#[test]
fn zero_count_moves_nowhere_and_jumps_to_first() {
    let mut app = app_with(&["a", "b", "c"]);
    app.move_selection(1);
    app.handle_key_event(Key::Char('0'));
    app.handle_key_event(Key::Char('j'));
    assert_eq!(app.selected, 1);
    assert_eq!(app.pending_count, None);
    app.handle_key_event(Key::Char('0'));
    app.handle_key_event(Key::Char('G'));
    assert_eq!(app.selected, 0);
}

#[test]
fn unused_keys_drop_the_prefix_state() {
    let mut app = app_with(&["a", "b"]);
    app.handle_key_event(Key::Char('5'));
    app.handle_key_event(Key::Char('x'));
    assert_eq!(app.pending_count, None);
    app.handle_key_event(Key::Char('g'));
    app.handle_key_event(Key::Char('x'));
    app.handle_key_event(Key::Char('g'));
    assert_eq!(app.status, "Press g again to jump to entry");
}

#[test]
fn overlay_prompt_shows_buffer_and_feedback() {
    let mut app = app_with(&["a"]);
    assert!(app.overlay_prompt().is_none());
    app.handle_key_event(Key::Char(':'));
    app.handle_key_event(Key::Char('p'));
    let (title, content) = app.overlay_prompt().unwrap();
    assert_eq!(title, "Command");
    assert_eq!(content, ":p");
    app.handle_key_event(Key::Esc);
    app.handle_key_event(Key::Char('/'));
    app.handle_key_event(Key::Enter);
    let (title, content) = app.overlay_prompt().unwrap();
    assert_eq!(title, "Search");
    assert_eq!(content, "/\nEnter a search query");
}

#[test]
fn describe_selection_reflects_loading_and_emptiness() {
    let (mut app, scan) = App::new("/base".to_string(), App::default_aliases());
    assert_eq!(app.describe_selection(0), "Loading directory...");
    app.handle_scan_result("/base", scan.token, Ok(vec![]));
    assert_eq!(app.describe_selection(0), "No entries");
    let scan = app.refresh_async(false);
    app.handle_scan_result("/base", scan.token, Ok(vec![entry("a", false)]));
    assert!(app.describe_selection(0).starts_with("File\nName: a"));
}

#[test]
fn preview_target_follows_the_selection() {
    let (mut app, scan) = App::new("/base".to_string(), App::default_aliases());
    assert!(matches!(app.preview_target(), PreviewTarget::Loading));
    app.handle_scan_result("/base", scan.token, Ok(vec![]));
    assert!(matches!(app.preview_target(), PreviewTarget::Empty));
    let scan = app.refresh_async(false);
    app.handle_scan_result("/base", scan.token, Ok(vec![entry("a", false)]));
    match app.preview_target() {
        PreviewTarget::Entry { entry, path } => {
            assert_eq!(entry.name, "a");
            assert_eq!(path, "/base/a");
        },
        _ => panic!("expected an entry target"),
    }
}

#[test]
fn worker_loss_is_reported() {
    let mut app = app_with(&["a"]);
    app.worker_disconnected();
    assert_eq!(app.status, "Filesystem worker disconnected");
    assert!(!app.is_loading);
}
