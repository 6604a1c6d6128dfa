use wayfinder::entry::FileEntry;
use wayfinder::state::{App, Key, InputMode};

fn entry(name: &str) -> FileEntry {
    FileEntry { name: name.to_string(), is_dir: false, size: None, modified: None }
}

fn app_with(names: &[&str]) -> App {
    let (mut app, scan) = App::new("/base".to_string(), App::default_aliases());
    let list: Vec<FileEntry> = names.iter().map(|n| entry(n)).collect();
    app.handle_scan_result("/base", scan.token, Ok(list));
    app
}

#[test]
fn apply_search_selects_first_match_from_selection() {
    let mut app = app_with(&["alpha", "beta", "beacon"]);
    app.apply_search("bea");
    assert_eq!(app.selected, 1);
    assert_eq!(app.status, "Match: beacon");
    assert_eq!(app.last_search.as_deref(), Some("bea"));
}

#[test]
fn search_is_case_insensitive_both_ways() {
    let mut app = app_with(&["README", "makefile"]);
    app.apply_search("readme");
    assert_eq!(app.selected, 1);
    app.apply_search("MAKE");
    assert_eq!(app.selected, 0);
}

#[test]
fn search_next_wraps_to_front() {
    let mut app = app_with(&["alpha", "beta", "gamma"]);
    app.apply_search("gamma");
    assert_eq!(app.selected, 2);
    app.last_search = Some("a".to_string());
    app.search_next();
    assert_eq!(app.selected, 0);
    assert_eq!(app.status, "Match: alpha");
}

#[test]
fn search_next_without_query_reports() {
    let mut app = app_with(&["alpha"]);
    app.search_next();
    assert_eq!(app.status, "No previous search");
}

#[test]
fn no_match_leaves_selection_unchanged() {
    let mut app = app_with(&["alpha", "beta"]);
    app.move_selection(1);
    app.apply_search("zzz");
    assert_eq!(app.selected, 1);
    assert_eq!(app.status, "No match for 'zzz'");
}

#[test]
fn search_prev_scans_backward_with_wrap() {
    let mut app = app_with(&["apple", "banana", "apricot"]);
    app.last_search = Some("ap".to_string());
    app.search_prev();
    assert_eq!(app.selected, 1);
    assert_eq!(app.status, "Match: apricot");
    app.search_prev();
    assert_eq!(app.selected, 0);
}

#[test]
fn search_mode_seeds_buffer_commits_and_cancels() {
    let mut app = app_with(&["alpha", "beta"]);
    app.handle_key_event(Key::Char('/'));
    assert!(matches!(app.input_mode, InputMode::Search { .. }));
    app.handle_key_event(Key::Char('b'));
    app.handle_key_event(Key::Char('x'));
    app.handle_key_event(Key::Backspace);
    app.handle_key_event(Key::Enter);
    assert!(matches!(app.input_mode, InputMode::Normal));
    assert_eq!(app.selected, 1);
    assert_eq!(app.last_search.as_deref(), Some("b"));

    app.handle_key_event(Key::Char('/'));
    match &app.input_mode {
        InputMode::Search { buffer, .. } => assert_eq!(buffer, "b"),
        _ => panic!("expected search mode"),
    }
    app.handle_key_event(Key::Esc);
    assert!(matches!(app.input_mode, InputMode::Normal));
    assert_eq!(app.status, "Search canceled");
}

#[test]
fn empty_search_commit_asks_for_a_query() {
    let (mut app, _) = App::new("/base".to_string(), App::default_aliases());
    app.handle_key_event(Key::Char('/'));
    app.handle_key_event(Key::Enter);
    match &app.input_mode {
        InputMode::Search { feedback, .. } => {
            assert_eq!(feedback.as_deref(), Some("Enter a search query"));
        },
        _ => panic!("expected search mode"),
    }
}

#[test]
fn searching_an_empty_list_reports() {
    let (mut app, _) = App::new("/base".to_string(), App::default_aliases());
    app.apply_search("x");
    assert_eq!(app.status, "No entries to search");
}
