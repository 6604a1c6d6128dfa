use wayfinder::preview::{DirRow, PreviewPane, PreviewSource, build_preview};

fn dir_source(rows: Vec<(&str, bool)>, more: bool) -> PreviewSource {
    PreviewSource::Directory {
        rows: rows
            .into_iter()
            .map(|(name, is_dir)| DirRow { name: name.to_string(), is_dir })
            .collect(),
        more,
    }
}

#[test]
fn empty_file_has_a_fixed_message() {
    let pane = build_preview(&PreviewSource::File { bytes: Vec::new() });
    assert_eq!(pane.title, "Preview");
    assert_eq!(pane.body, "<empty file>");
}

#[test]
fn text_preview_keeps_lines_verbatim() {
    let bytes = b"first line\nsecond line\nthird".to_vec();
    let pane = build_preview(&PreviewSource::File { bytes });
    assert_eq!(pane.body, "first line\nsecond line\nthird");
}

#[test]
fn text_preview_strips_carriage_returns() {
    let bytes = b"one\r\ntwo\r\n".to_vec();
    let pane = build_preview(&PreviewSource::File { bytes });
    assert_eq!(pane.body, "one\ntwo");
}

#[test]
fn text_preview_truncates_after_eighty_lines() {
    let mut text = String::new();
    for i in 0..82 {
        text.push_str(&format!("line {}\n", i));
    }
    let pane = build_preview(&PreviewSource::File { bytes: text.into_bytes() });
    let lines: Vec<&str> = pane.body.split('\n').collect();
    assert_eq!(lines.len(), 81);
    assert_eq!(lines[0], "line 0");
    assert_eq!(lines[79], "line 79");
    assert_eq!(lines[80], "...");
}

#[test]
fn binary_preview_is_labelled_by_sniffed_type() {
    let mut bytes = vec![0x89u8, 0x50, 0x4e, 0x47, 0x0d, 0x0a, 0x1a, 0x0a];
    bytes.extend_from_slice(&[0u8; 16]);
    let pane = build_preview(&PreviewSource::File { bytes });
    assert_eq!(pane.body, "Non-text file\nType: image/png (png)");
}

#[test]
fn unrecognised_binary_is_unknown() {
    let bytes = vec![0u8, 1, 2, 3, 0, 0, 0, 7];
    let pane = build_preview(&PreviewSource::File { bytes });
    assert_eq!(pane.body, "Non-text file\nType: Unknown type");
}

#[test]
fn directory_preview_lists_children_with_markers() {
    let pane = build_preview(&dir_source(vec![("sub", true), ("a.txt", false)], false));
    assert_eq!(pane.body, "[D] sub\n[F] a.txt");
}

#[test]
fn directory_preview_marks_truncation() {
    let pane = build_preview(&dir_source(vec![("one", false)], true));
    assert_eq!(pane.body, "[F] one\n...");
}

#[test]
fn empty_directory_preview() {
    let pane = build_preview(&dir_source(vec![], false));
    assert_eq!(pane.body, "Directory is empty");
}

#[test]
fn pane_constructors() {
    assert_eq!(PreviewPane::empty().body, "No file selected");
    assert_eq!(PreviewPane::loading().body, "Loading preview...");
    let e = PreviewPane::error("Preview error: nope".to_string());
    assert_eq!(e.title, "Preview");
    assert_eq!(e.body, "Preview error: nope");
    let p = PreviewPane::new("Preview", "hello".to_string());
    assert_eq!(p.title, "Preview");
    assert_eq!(p.body, "hello");
}
