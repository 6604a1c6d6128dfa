use wayfinder::entry::{FileEntry, sort_entries};

fn entry(name: &str, is_dir: bool) -> FileEntry {
    FileEntry {
        name: name.to_string(),
        is_dir,
        size: if is_dir { None } else { Some(1) },
        modified: None,
    }
}

#[test]
fn scan_order_dirs_first_then_case_insensitive_names() {
    let raw = vec![entry("b.txt", false), entry("A", true), entry("a.txt", false)];
    let sorted = sort_entries(raw);
    let names: Vec<&str> = sorted.iter().map(|e| e.name.as_str()).collect();
    assert_eq!(names, vec!["A", "a.txt", "b.txt"]);
}

#[test]
fn sort_puts_every_directory_before_every_file() {
    let raw = vec![
        entry("zeta", false),
        entry("Beta", true),
        entry("alpha", false),
        entry("Delta", true),
        entry("gamma", true),
    ];
    let sorted = sort_entries(raw);
    let split = sorted.iter().position(|e| !e.is_dir).unwrap();
    assert!(sorted[..split].iter().all(|e| e.is_dir));
    assert!(sorted[split..].iter().all(|e| !e.is_dir));
    let dir_names: Vec<&str> = sorted[..split].iter().map(|e| e.name.as_str()).collect();
    assert_eq!(dir_names, vec!["Beta", "Delta", "gamma"]);
    let file_names: Vec<&str> = sorted[split..].iter().map(|e| e.name.as_str()).collect();
    assert_eq!(file_names, vec!["alpha", "zeta"]);
}

#[test]
fn sort_is_case_insensitive_within_a_group() {
    let raw = vec![entry("banana", false), entry("APPLE", false), entry("Cherry", false)];
    let sorted = sort_entries(raw);
    let names: Vec<&str> = sorted.iter().map(|e| e.name.as_str()).collect();
    assert_eq!(names, vec!["APPLE", "banana", "Cherry"]);
}

#[test]
fn sort_keeps_every_element() {
    let raw = vec![entry("x", false), entry("x", false), entry("y", true)];
    let sorted = sort_entries(raw);
    assert_eq!(sorted.len(), 3);
    assert_eq!(sorted.iter().filter(|e| e.name == "x").count(), 2);
    assert_eq!(sorted.iter().filter(|e| e.name == "y").count(), 1);
}

#[test]
fn describe_renders_kind_name_size_and_age() {
    let e = FileEntry { name: "notes.txt".to_string(), is_dir: false, size: Some(42), modified: Some(100) };
    assert_eq!(e.describe(107), "File\nName: notes.txt\nSize: 42 bytes\nModified: 7s ago");
    let d = FileEntry { name: "src".to_string(), is_dir: true, size: None, modified: None };
    assert_eq!(d.describe(0), "Directory\nName: src\nSize: \u{2014}\nModified: unknown");
}

#[test]
fn sort_is_stable_for_indistinguishable_names() {
    let raw = vec![
        entry("b", false),
        entry("readme", false),
        entry("README", false),
        entry("A", false),
    ];
    let sorted = sort_entries(raw);
    let names: Vec<&str> = sorted.iter().map(|e| e.name.as_str()).collect();
    assert_eq!(names, vec!["A", "b", "readme", "README"]);
}
