use runjs::path::FsPath;

#[test]
fn parse_absolute_path() {
    let p = FsPath::parse("/sandbox/data.txt");
    assert!(p.is_absolute());
    assert_eq!(p.depth(), 2);
    assert_eq!(p.render(), "/sandbox/data.txt");
}

#[test]
fn parse_relative_path() {
    let p = FsPath::parse("lib/util.js");
    assert!(!p.is_absolute());
    assert_eq!(p.depth(), 2);
    assert_eq!(p.render(), "lib/util.js");
}

#[test]
fn parse_collapses_empty_and_dot_components() {
    let p = FsPath::parse("/a//./b/");
    assert_eq!(p.render(), "/a/b");
    assert_eq!(p.depth(), 2);
}

#[test]
fn parse_keeps_dot_dot_components() {
    let p = FsPath::parse("../outside.js");
    assert!(!p.is_absolute());
    assert_eq!(p.render(), "../outside.js");
}

#[test]
fn parse_bare_root() {
    let p = FsPath::parse("/");
    assert!(p.is_absolute());
    assert_eq!(p.depth(), 0);
    assert_eq!(p.render(), "/");
}

#[test]
fn parse_empty_string() {
    let p = FsPath::parse("");
    assert!(!p.is_absolute());
    assert_eq!(p.depth(), 0);
    assert_eq!(p.render(), "");
}

#[test]
fn join_relative_appends() {
    let root = FsPath::parse("/sandbox");
    let rel = FsPath::parse("notes/data.txt");
    assert_eq!(root.join(&rel).render(), "/sandbox/notes/data.txt");
}

#[test]
fn join_absolute_candidate_stands_as_given() {
    let root = FsPath::parse("/sandbox");
    let abs = FsPath::parse("/etc/passwd");
    assert_eq!(root.join(&abs).render(), "/etc/passwd");
}

#[test]
fn join_keeps_dot_dot_for_canonicalization() {
    let root = FsPath::parse("/sandbox");
    let rel = FsPath::parse("../secret.txt");
    assert_eq!(root.join(&rel).render(), "/sandbox/../secret.txt");
}

#[test]
fn parent_of_file_is_directory() {
    let p = FsPath::parse("/sandbox/notes/data.txt");
    let parent = p.parent_path().expect("has a parent");
    assert_eq!(parent.render(), "/sandbox/notes");
}

#[test]
fn parent_of_root_is_none() {
    let p = FsPath::parse("/");
    assert!(p.parent_path().is_none());
    let one = FsPath::parse("/a");
    assert_eq!(one.parent_path().expect("has a parent").render(), "/");
}

#[test]
fn starts_with_component_wise() {
    let root = FsPath::parse("/sandbox");
    assert!(FsPath::parse("/sandbox/data.txt").starts_with(&root));
    assert!(FsPath::parse("/sandbox").starts_with(&root));
    // A textual prefix is not a component prefix.
    assert!(!FsPath::parse("/sandbox2/data.txt").starts_with(&root));
    assert!(!FsPath::parse("/secret").starts_with(&root));
    // A relative path never starts with an absolute one.
    assert!(!FsPath::parse("sandbox/data.txt").starts_with(&root));
}

#[test]
fn path_eq_ignores_spelling_noise() {
    let a = FsPath::parse("/a//b/./c");
    let b = FsPath::parse("/a/b/c");
    assert!(a.path_eq(&b));
    assert!(!a.path_eq(&FsPath::parse("/a/b")));
    assert!(!a.path_eq(&FsPath::parse("a/b/c")));
}

#[test]
fn file_name_is_last_component() {
    assert_eq!(
        FsPath::parse("/sandbox/main.ts").file_name().expect("has a name"),
        "main.ts"
    );
    assert!(FsPath::parse("/").file_name().is_none());
}

#[test]
fn duplicate_is_same_location() {
    let p = FsPath::parse("/sandbox/a");
    let d = p.duplicate();
    assert!(p.path_eq(&d));
    assert_eq!(d.render(), "/sandbox/a");
}

#[test]
fn normalize_folds_dot_dot() {
    let p = FsPath::parse("/sandbox/a/../b.txt");
    let n = p.normalize().expect("stays inside");
    assert_eq!(n.render(), "/sandbox/b.txt");
}

#[test]
fn normalize_without_dot_dot_is_identity() {
    let p = FsPath::parse("/sandbox/notes/data.txt");
    let n = p.normalize().expect("nothing to fold");
    assert!(n.path_eq(&p));
}

#[test]
fn normalize_fails_past_the_filesystem_root() {
    assert!(FsPath::parse("/..").normalize().is_none());
    assert!(FsPath::parse("/sandbox/../../x.txt").normalize().is_none());
    assert!(FsPath::parse("..").normalize().is_none());
}

#[test]
fn normalize_allows_reentry() {
    let p = FsPath::parse("/sandbox/../sandbox/x.txt");
    let n = p.normalize().expect("climbs and returns");
    assert_eq!(n.render(), "/sandbox/x.txt");
}
