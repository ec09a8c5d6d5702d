use tango::paths::{keep_file_name, MdPath, PathParts, RsPath};

fn parts(v: &[&str]) -> PathParts {
    PathParts::new(v.iter().map(|s| s.chars().collect()).collect())
}

fn shown(p: &PathParts) -> String {
    p.display().iter().collect()
}

#[test]
fn source_path_maps_to_literate_path() {
    let rs = RsPath::from_entry(parts(&["src", "sub", "hello.rs"])).unwrap();
    assert_eq!(shown(rs.to_md().path()), "src/sub/hello.md");
}

#[test]
fn literate_path_maps_to_source_path() {
    let md = MdPath::from_entry(parts(&["src", "a.b.md"])).unwrap();
    assert_eq!(shown(md.to_rs().path()), "src/a.b.rs");
}

#[test]
fn entries_outside_root_or_with_other_extension_are_refused() {
    assert!(RsPath::from_entry(parts(&["lib", "a.rs"])).is_none());
    assert!(RsPath::from_entry(parts(&["src", "a.md"])).is_none());
    assert!(RsPath::from_entry(parts(&["src", ".rs"])).is_none());
    assert!(RsPath::from_entry(parts(&["src"])).is_none());
    assert!(MdPath::from_entry(parts(&["src", "a.rs"])).is_none());
    assert!(MdPath::from_entry(parts(&["src", "a.mdx"])).is_none());
}

#[test]
fn hidden_entries_are_skipped() {
    assert!(RsPath::from_entry(parts(&["src", ".#lib.rs"])).is_none());
    assert!(MdPath::from_entry(parts(&["src", ".#lib.md"])).is_none());
    assert!(!keep_file_name(&".x".chars().collect()));
    assert!(keep_file_name(&"x".chars().collect()));
}

#[test]
fn new_accepts_valid_paths() {
    let rs = RsPath::new(parts(&["src", "main.rs"]));
    assert_eq!(shown(rs.path()), "src/main.rs");
    let md = MdPath::new(parts(&["src", "main.md"]));
    assert_eq!(shown(md.path()), "src/main.md");
}
