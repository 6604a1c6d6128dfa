use wayfinder::fsmodel::{ModelFile, ModelFs};
use wayfinder::text::split_command;

fn fs_with(records: Vec<(&str, u64)>) -> ModelFs {
    ModelFs {
        files: records
            .into_iter()
            .map(|(path, data)| ModelFile { path: path.to_string(), data })
            .collect(),
    }
}

#[test]
fn forced_fallback_ends_like_an_atomic_move() {
    let mut with_rename = fs_with(vec![("/a/src.txt", 7), ("/a/other", 9)]);
    let mut without_rename = fs_with(vec![("/a/src.txt", 7), ("/a/other", 9)]);
    with_rename.move_entry("/a/src.txt", "/b/dest.txt", true);
    without_rename.move_entry("/a/src.txt", "/b/dest.txt", false);

    for fs in [&with_rename, &without_rename] {
        assert!(!fs.contains_path("/a/src.txt"));
        assert_eq!(fs.read("/b/dest.txt"), Some(7));
        assert_eq!(fs.read("/a/other"), Some(9));
        assert_eq!(fs.files.len(), 2);
    }
    let a: Vec<(String, u64)> =
        with_rename.files.iter().map(|f| (f.path.clone(), f.data)).collect();
    let b: Vec<(String, u64)> =
        without_rename.files.iter().map(|f| (f.path.clone(), f.data)).collect();
    assert_eq!(a, b);
}

#[test]
fn split_command_separates_word_and_argument() {
    assert_eq!(split_command("rename  new name.txt"), ("rename", "new name.txt"));
    assert_eq!(split_command("pwd"), ("pwd", ""));
    assert_eq!(split_command("cd /tmp"), ("cd", "/tmp"));
}
