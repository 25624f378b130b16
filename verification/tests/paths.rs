use std::path::Path;

use pairsync::paths::{backup_file_name, last_dot, split_file_name, update_path};

#[test]
fn backup_path_keeps_parent_and_extension() {
    assert_eq!(update_path("dir/notes.txt"), "dir/notes_backup.txt");
    assert_eq!(update_path("/tmp/a/report.md"), "/tmp/a/report_backup.md");
    assert_eq!(update_path("./notes.txt"), "./notes_backup.txt");
}

#[test]
fn backup_path_of_bare_file_name_has_no_parent() {
    assert_eq!(update_path("notes.txt"), "notes_backup.txt");
}

#[test]
fn backup_path_splits_at_the_last_dot() {
    assert_eq!(update_path("archive.tar.gz"), "archive.tar_backup.gz");
    assert_eq!(update_path("a/b."), "a/b_backup.");
}

#[test]
fn backup_path_falls_back_to_txt_extension() {
    assert_eq!(update_path("dir/README"), "dir/README_backup.txt");
    assert_eq!(update_path("dir/.bashrc"), "dir/.bashrc_backup.txt");
}

#[test]
fn backup_path_falls_back_to_file_stem_and_dot_parent() {
    assert_eq!(update_path(""), "./file_backup.txt");
    assert_eq!(update_path("/"), "./file_backup.txt");
    assert_eq!(update_path(".."), "file_backup.txt");
    assert_eq!(update_path("dir/.."), "dir/file_backup.txt");
}

#[test]
fn backup_path_ignores_a_trailing_separator() {
    assert_eq!(update_path("dir/"), "dir_backup.txt");
    assert_eq!(update_path("a/b.txt/"), "a/b_backup.txt");
}

#[test]
fn backup_path_agrees_with_std_path() {
    let inputs = [
        "dir/notes.txt",
        "notes.txt",
        "/abs/x.y.z",
        "rel/./odd..name",
        "a//b///c.d",
        "/",
        "",
        ".",
        "..",
        "a/.hidden",
        "a/.hidden.cfg",
        "übung/grüße.txt",
        "dir/trailing.",
    ];
    for input in inputs {
        let path = Path::new(input);
        let parent = path.parent().unwrap_or(Path::new("."));
        let stem = path.file_stem().and_then(|s| s.to_str()).unwrap_or("file");
        let ext = path.extension().and_then(|s| s.to_str()).unwrap_or("txt");
        let expected = parent.join(format!("{}_backup.{}", stem, ext));
        assert_eq!(update_path(input), expected.to_str().unwrap(), "input {:?}", input);
    }
}

#[test]
fn backup_file_name_uses_stem_and_extension() {
    assert_eq!(backup_file_name(Some("notes.txt")), "notes_backup.txt");
    assert_eq!(backup_file_name(Some("a.b.c")), "a.b_backup.c");
}

#[test]
fn backup_file_name_without_name_is_file_backup_txt() {
    assert_eq!(backup_file_name(None), "file_backup.txt");
}

#[test]
fn backup_file_name_without_extension_uses_txt() {
    assert_eq!(backup_file_name(Some("Makefile")), "Makefile_backup.txt");
    assert_eq!(backup_file_name(Some(".env")), ".env_backup.txt");
}

#[test]
fn split_file_name_follows_the_last_dot() {
    assert_eq!(split_file_name("notes.txt"), ("notes".to_string(), Some("txt".to_string())));
    assert_eq!(split_file_name("a.tar.gz"), ("a.tar".to_string(), Some("gz".to_string())));
    assert_eq!(split_file_name("plain"), ("plain".to_string(), None));
    assert_eq!(split_file_name(".hidden"), (".hidden".to_string(), None));
    assert_eq!(split_file_name("dot."), ("dot".to_string(), Some("".to_string())));
    assert_eq!(split_file_name("..x"), (".".to_string(), Some("x".to_string())));
    assert_eq!(split_file_name(""), ("".to_string(), None));
}

#[test]
fn split_file_name_counts_characters_not_bytes() {
    assert_eq!(split_file_name("grüße.tëxt"), ("grüße".to_string(), Some("tëxt".to_string())));
    assert_eq!(split_file_name("日本語.txt"), ("日本語".to_string(), Some("txt".to_string())));
}

#[test]
fn split_file_name_agrees_with_std_path() {
    let names = ["a.b", "a", ".a", "a.", "a.b.c", "..a", "a..b", ".a.b", "x.tar.gz", "ä.ö"];
    for name in names {
        let path = Path::new(name);
        let stem = path.file_stem().and_then(|s| s.to_str()).map(|s| s.to_string());
        let ext = path.extension().and_then(|s| s.to_str()).map(|s| s.to_string());
        let (got_stem, got_ext) = split_file_name(name);
        assert_eq!(Some(got_stem), stem, "stem of {:?}", name);
        assert_eq!(got_ext, ext, "extension of {:?}", name);
    }
}

#[test]
fn last_dot_finds_the_final_one() {
    assert_eq!(last_dot("a.b.c"), Some(3));
    assert_eq!(last_dot(".a"), Some(0));
    assert_eq!(last_dot("abc"), None);
    assert_eq!(last_dot(""), None);
    assert_eq!(last_dot("..."), Some(2));
}

#[test]
fn last_dot_counts_characters() {
    assert_eq!(last_dot("grüße.txt"), Some(5));
    assert_eq!(last_dot("日本語.txt"), Some(3));
}
