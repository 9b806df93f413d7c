use openat_secure::path::{
    contains_parent, has_nul, has_trailing_slash, last_is_parent, parse, starts_with_slash, Component,
};

fn name(bytes: &[u8]) -> Component {
    Component::Name(bytes.to_vec())
}

fn components(path: &[u8]) -> Vec<Component> {
    parse(path).into_iter().collect()
}

#[test]
fn parse_splits_at_slashes() {
    assert_eq!(components(b"a/b/c"), vec![name(b"a"), name(b"b"), name(b"c")]);
    assert_eq!(components(b"a//b///c/"), vec![name(b"a"), name(b"b"), name(b"c")]);
    assert_eq!(components(b"abc"), vec![name(b"abc")]);
    assert_eq!(components(b""), vec![]);
}

#[test]
fn parse_marks_the_root() {
    assert_eq!(components(b"/"), vec![Component::Root]);
    assert_eq!(components(b"///"), vec![Component::Root]);
    assert_eq!(components(b"/a"), vec![Component::Root, name(b"a")]);
    assert_eq!(components(b"//a//"), vec![Component::Root, name(b"a")]);
}

#[test]
fn parse_drops_dot_and_keeps_dot_dot() {
    assert_eq!(components(b"."), vec![]);
    assert_eq!(components(b"./"), vec![]);
    assert_eq!(components(b"./a/./b/."), vec![name(b"a"), name(b"b")]);
    assert_eq!(components(b"/."), vec![Component::Root]);
    assert_eq!(components(b".."), vec![Component::Parent]);
    assert_eq!(components(b"a/../.."), vec![name(b"a"), Component::Parent, Component::Parent]);
    assert_eq!(components(b"/../a"), vec![Component::Root, Component::Parent, name(b"a")]);
    // Names that only begin like them
    assert_eq!(components(b"..."), vec![name(b"...")]);
    assert_eq!(components(b".a/..b/c."), vec![name(b".a"), name(b"..b"), name(b"c.")]);
}

#[test]
fn parse_keeps_every_other_byte() {
    assert_eq!(components(b"a b/\xff\xfe/\0"), vec![name(b"a b"), name(b"\xff\xfe"), name(b"\0")]);
}

#[test]
fn nul_is_found_anywhere() {
    assert!(!has_nul(b""));
    assert!(!has_nul(b"a/b"));
    assert!(has_nul(b"\0"));
    assert!(has_nul(b"a/b\0"));
    assert!(has_nul(b"\0a"));
}

#[test]
fn slashes_at_the_ends() {
    assert!(has_trailing_slash(b"a/"));
    assert!(has_trailing_slash(b"/"));
    assert!(!has_trailing_slash(b""));
    assert!(!has_trailing_slash(b"/a"));
    assert!(starts_with_slash(b"/a"));
    assert!(starts_with_slash(b"/"));
    assert!(!starts_with_slash(b""));
    assert!(!starts_with_slash(b"a/"));
}

#[test]
fn parent_among_the_components() {
    assert!(contains_parent(b".."));
    assert!(contains_parent(b"a/../b"));
    assert!(contains_parent(b"/a/b/.."));
    assert!(!contains_parent(b"a/..b/c.."));
    assert!(!contains_parent(b""));
    assert!(!contains_parent(b"./a"));
}

#[test]
fn parent_as_the_last_component() {
    assert!(last_is_parent(b".."));
    assert!(last_is_parent(b"a/.."));
    assert!(last_is_parent(b"a/..//"));
    assert!(last_is_parent(b"a/../."));
    assert!(!last_is_parent(b"../a"));
    assert!(!last_is_parent(b"a/..."));
    assert!(!last_is_parent(b""));
    assert!(!last_is_parent(b"/"));
}
