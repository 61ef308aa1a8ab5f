use std::path::PathBuf;

use yonder::accept::destination_path;
use yonder::paths::{extension, file_name, file_stem, join, pick_free_path, unique_path};

fn dir_text(dir: &tempfile::TempDir) -> String {
    dir.path().to_str().unwrap().to_string()
}

/// Creates the file `name` in `dir`; it lasts as long as the handle.
fn touch(dir: &std::path::Path, name: &str) -> tempfile::NamedTempFile {
    tempfile::Builder::new().prefix(name).rand_bytes(0).tempfile_in(dir).unwrap()
}

#[test]
fn accept_unique_path_returns_input_when_no_collision() {
    let dir = tempfile::tempdir().unwrap();
    let p = unique_path(&dir_text(&dir), "fresh.txt").unwrap();
    assert_eq!(PathBuf::from(p), dir.path().join("fresh.txt"));
}

#[test]
fn accept_unique_path_appends_numeric_suffix_for_collisions() {
    let dir = tempfile::tempdir().unwrap();
    let _held = touch(dir.path(), "file.txt");
    let p2 = unique_path(&dir_text(&dir), "file.txt").unwrap();
    assert_eq!(PathBuf::from(&p2), dir.path().join("file (2).txt"));

    let _held2 = touch(dir.path(), "file (2).txt");
    assert_eq!(std::path::Path::new(&p2), dir.path().join("file (2).txt"));
    let p3 = unique_path(&dir_text(&dir), "file.txt").unwrap();
    assert_eq!(PathBuf::from(p3), dir.path().join("file (3).txt"));
}

#[test]
fn accept_unique_path_handles_files_without_extension() {
    let dir = tempfile::tempdir().unwrap();
    let _held = touch(dir.path(), "README");
    let p = unique_path(&dir_text(&dir), "README").unwrap();
    assert_eq!(PathBuf::from(p), dir.path().join("README (2)"));
}

#[test]
fn accept_unique_path_preserves_dotfile_extensions() {
    let dir = tempfile::tempdir().unwrap();
    let _held = touch(dir.path(), "archive.tar.gz");
    let p = unique_path(&dir_text(&dir), "archive.tar.gz").unwrap();
    assert_eq!(PathBuf::from(p), dir.path().join("archive.tar (2).gz"));
}

#[test]
fn server_unique_path_returns_input_when_no_collision() {
    let dir = tempfile::tempdir().unwrap();
    let p = unique_path(&dir_text(&dir), "fresh.txt").unwrap();
    assert_eq!(PathBuf::from(p), dir.path().join("fresh.txt"));
}

#[test]
fn server_unique_path_appends_numeric_suffix_for_collisions() {
    let dir = tempfile::tempdir().unwrap();
    let _held = touch(dir.path(), "file.txt");
    let p2 = unique_path(&dir_text(&dir), "file.txt").unwrap();
    assert_eq!(PathBuf::from(&p2), dir.path().join("file (2).txt"));

    let _held2 = touch(dir.path(), "file (2).txt");
    assert_eq!(std::path::Path::new(&p2), dir.path().join("file (2).txt"));
    let p3 = unique_path(&dir_text(&dir), "file.txt").unwrap();
    assert_eq!(PathBuf::from(p3), dir.path().join("file (3).txt"));
}

#[test]
fn server_unique_path_handles_files_without_extension() {
    let dir = tempfile::tempdir().unwrap();
    let _held = touch(dir.path(), "README");
    let p = unique_path(&dir_text(&dir), "README").unwrap();
    assert_eq!(PathBuf::from(p), dir.path().join("README (2)"));
}

#[test]
fn server_unique_path_preserves_dotfile_extensions() {
    let dir = tempfile::tempdir().unwrap();
    let _held = touch(dir.path(), "archive.tar.gz");
    let p = unique_path(&dir_text(&dir), "archive.tar.gz").unwrap();
    assert_eq!(PathBuf::from(p), dir.path().join("archive.tar (2).gz"));
}

#[test]
fn unique_path_dotfile_without_extension_gets_suffix_after_name() {
    let dir = tempfile::tempdir().unwrap();
    let _held = touch(dir.path(), ".bashrc");
    let p = unique_path(&dir_text(&dir), ".bashrc").unwrap();
    assert_eq!(PathBuf::from(p), dir.path().join(".bashrc (2)"));
}

#[test]
fn join_matches_pathbuf_push() {
    assert_eq!(join("/a/b", "c.txt"), "/a/b/c.txt");
    assert_eq!(join("/a/b/", "c.txt"), "/a/b/c.txt");
    assert_eq!(join("", "c.txt"), "c.txt");
    assert_eq!(join("/a", "/etc/x"), "/etc/x");
    assert_eq!(join("/a", ""), "/a/");
    for (d, n) in [("/a/b", "c.txt"), ("/a/b/", "c"), ("", "x"), ("/a", "/etc/x"), ("rel", "y/z")] {
        assert_eq!(PathBuf::from(join(d, n)), PathBuf::from(d).join(n));
    }
}

#[test]
fn file_name_stem_and_extension_match_std_path() {
    let cases = [
        "foo.txt",
        "/home/u/a.txt",
        "foo.txt/.",
        "foo.txt/.//",
        "foo.txt/..",
        "/",
        ".",
        "..",
        "./x",
        ".bashrc",
        "archive.tar.gz",
        "name.",
        "..a",
        "dir/",
        "",
    ];
    for c in cases {
        let p = std::path::Path::new(c);
        assert_eq!(
            file_name(c),
            p.file_name().map(|s| s.to_str().unwrap().to_string()),
            "file_name of {c:?}"
        );
        assert_eq!(
            file_stem(c),
            p.file_stem().map(|s| s.to_str().unwrap().to_string()),
            "file_stem of {c:?}"
        );
        assert_eq!(
            extension(c),
            p.extension().map(|s| s.to_str().unwrap().to_string()),
            "extension of {c:?}"
        );
    }
}

#[test]
fn destination_strips_separators_and_stays_in_dir() {
    let dir = tempfile::tempdir().unwrap();
    let p = destination_path(&dir_text(&dir), "../../etc/passwd").unwrap();
    assert_eq!(PathBuf::from(p), dir.path().join("....etcpasswd"));
    let q = destination_path(&dir_text(&dir), "..").unwrap();
    assert_eq!(PathBuf::from(&q).parent(), Some(dir.path()));
}

#[test]
fn the_first_free_candidate_is_picked() {
    assert_eq!(pick_free_path("/d", "file.txt", &vec![false]), Some("/d/file.txt".to_string()));
    assert_eq!(
        pick_free_path("/d", "file.txt", &vec![true, false]),
        Some("/d/file (2).txt".to_string())
    );
    assert_eq!(
        pick_free_path("/d", "file.txt", &vec![true, true, false, false]),
        Some("/d/file (3).txt".to_string())
    );
    assert_eq!(pick_free_path("/d", "README", &vec![true, false]), Some("/d/README (2)".to_string()));
    assert_eq!(
        pick_free_path("/d", "archive.tar.gz", &vec![true, false]),
        Some("/d/archive.tar (2).gz".to_string())
    );
    assert_eq!(pick_free_path("/d", "file.txt", &vec![]), None);
    assert_eq!(pick_free_path("/d", "file.txt", &vec![true; 9999]), None);
    let mut late = vec![true; 9998];
    late.push(false);
    assert_eq!(pick_free_path("/d", "x", &late), Some("/d/x (9999)".to_string()));
    let mut too_late = vec![true; 9999];
    too_late.push(false);
    assert_eq!(pick_free_path("/d", "x", &too_late), None);
}

#[test]
fn clean_names_land_unchanged() {
    let dir = tempfile::tempdir().unwrap();
    let p = destination_path(&dir_text(&dir), "photo 1.jpg").unwrap();
    assert_eq!(PathBuf::from(p), dir.path().join("photo 1.jpg"));
    let q = destination_path(&dir_text(&dir), "a<b>c.txt").unwrap();
    assert_eq!(PathBuf::from(q), dir.path().join("abc.txt"));
}
