use rvfs::{PathLike, VPath};

#[test]
fn normalize_collapses_separators_and_lowercases() {
    let p = VPath::normalized("Foo\\\\Bar//Baz.TXT");
    assert_eq!(p.as_str(), "/foo/bar/baz.txt");
}

#[test]
fn normalize_adds_leading_separator() {
    assert_eq!(VPath::normalized("a/b").as_str(), "/a/b");
    assert_eq!(VPath::normalized("").as_str(), "/");
    assert_eq!(VPath::normalized("///").as_str(), "/");
}

#[test]
fn normalize_lowercases_every_character_and_drops_trailing_separator() {
    assert_eq!(VPath::normalized("/Ä/B/").as_str(), "/ä/b");
    assert_eq!(VPath::normalized("ÉCOLE\\").as_str(), "/école");
    assert_eq!(VPath::normalized("/").as_str(), "/");
    assert_eq!(VPath::normalized("\\").as_str(), "/");
}

#[test]
fn normalize_is_idempotent_on_examples() {
    for raw in ["", "A\\B", "//x//Y.z", "/a/", "C:\\Dir\\File.Ext", "ÉCOLE/x"] {
        let once = VPath::normalized(raw);
        let twice = VPath::normalized(once.as_str());
        assert_eq!(once, twice);
    }
}

#[test]
fn paths_equal_after_normalization() {
    assert_eq!(VPath::normalized("/A/b"), VPath::normalized("a\\B"));
    assert_ne!(VPath::normalized("/a/b"), VPath::normalized("/a/c"));
}

#[test]
fn exact_keeps_text() {
    assert_eq!(VPath::exact("A//b").as_str(), "A//b");
    assert_eq!(VPath::exact("x").to_string(), "x".to_string());
}

#[test]
fn filename_and_extension() {
    let p = VPath::normalized("/dir.d/file.tar.gz");
    assert_eq!(p.filename(), "file.tar.gz");
    assert_eq!(p.filename_no_extension(), "file.tar");
    assert_eq!(p.extension(), Some("gz"));
}

#[test]
fn dot_in_directory_is_no_extension() {
    let p = VPath::normalized("/dir.d/file");
    assert_eq!(p.filename(), "file");
    assert_eq!(p.filename_no_extension(), "file");
    assert_eq!(p.extension(), None);
}

#[test]
fn parent_directory_string_cases() {
    assert_eq!(VPath::normalized("/a/b/c").parent_directory_string(), Some("/a/b".to_string()));
    assert_eq!(VPath::normalized("/a").parent_directory_string(), None);
    assert_eq!(VPath::normalized("/").parent_directory_string(), None);
}

#[test]
fn directory_string_appends_separator_once() {
    assert_eq!(VPath::normalized("/a").as_directory_string(), "/a/");
    assert_eq!(VPath::normalized("/a/").as_directory_string(), "/a/");
    assert_eq!(VPath::normalized("/").as_directory_string(), "/");
    assert_eq!(VPath::exact("").as_directory_string(), "/");
    assert_eq!(VPath::normalized("/a").directory_str_len(), 3);
    assert_eq!(VPath::normalized("/a").to_directory_string(), "/a/");
}

#[test]
fn join_concatenates_without_normalizing() {
    let base = VPath::normalized("/root");
    let joined = base.join("/Sub");
    assert_eq!(joined.as_str(), "/root/Sub");
    let moved = base.clone().join_into("/x");
    assert_eq!(moved.as_str(), "/root/x");
    assert_eq!(base.as_str(), "/root");
}

#[test]
fn is_child_checks_directory_prefix() {
    let dir = VPath::normalized("/a");
    assert!(dir.is_child(&VPath::normalized("/a/b.txt")));
    assert!(dir.is_child(&VPath::normalized("/a/b/c")));
    assert!(!dir.is_child(&VPath::normalized("/ab/c")));
    assert!(!dir.is_child(&VPath::normalized("/a")));
    assert!(VPath::normalized("/").is_child(&VPath::normalized("/x")));
}

#[test]
fn from_text_normalizes() {
    assert_eq!(VPath::from("A\\B/").as_str(), "/a/b");
    assert_eq!(VPath::from(String::from("//X")).as_str(), "/x");
}

#[test]
fn path_derefs_to_text() {
    let p = VPath::normalized("/a/B");
    let s: &str = &p;
    assert_eq!(s, "/a/b");
    let r: &str = p.as_ref();
    assert_eq!(r.len(), 4);
    let q: VPath = p.clone().to_path();
    assert_eq!(q, p);
}
