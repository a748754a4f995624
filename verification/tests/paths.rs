use twc::path::PanelPath;

fn names(path: &PanelPath) -> Vec<String> {
    let mut names = Vec::new();
    let mut rest = path.duplicate();
    while let Some(name) = rest.file_name() {
        names.insert(0, name);
        rest = rest.parent().unwrap();
    }
    names
}

#[test]
fn the_root_has_no_parent_and_no_name() {
    let root = PanelPath::root();
    assert!(root.is_root());
    assert_eq!(root.depth(), 0);
    assert!(root.parent().is_none());
    assert!(root.file_name().is_none());
    assert_eq!(root.display(), "/");
}

#[test]
fn parse_reads_the_names_between_slashes() {
    assert_eq!(names(&PanelPath::parse("/a/b")), vec!["a", "b"]);
    assert_eq!(names(&PanelPath::parse("/a//b/./c/")), vec!["a", "b", "c"]);
    assert_eq!(names(&PanelPath::parse("a/b")), vec!["a", "b"]);
    assert_eq!(names(&PanelPath::parse("/a/../b")), vec!["a", "..", "b"]);
    assert_eq!(names(&PanelPath::parse("/.hidden/é ü")), vec![".hidden", "é ü"]);
    assert!(PanelPath::parse("/").is_root());
    assert!(PanelPath::parse("").is_root());
    assert!(PanelPath::parse("//./").is_root());
}

#[test]
fn display_writes_a_slash_ahead_of_each_name() {
    assert_eq!(PanelPath::parse("/a/b").display(), "/a/b");
    assert_eq!(PanelPath::parse("a//b/").display(), "/a/b");
    assert_eq!(PanelPath::root().join("usr").join("lib").display(), "/usr/lib");
}

#[test]
fn what_is_displayed_reads_back() {
    for text in ["/", "/a", "/a/b/c", "/tmp/x y/.z"] {
        let path = PanelPath::parse(text);
        assert_eq!(path.display(), text);
        assert!(PanelPath::parse(path.display().as_str()).same_as(&path));
    }
}

#[test]
fn parent_name_join_and_push() {
    let path = PanelPath::parse("/a/b");
    assert_eq!(path.depth(), 2);
    assert_eq!(path.file_name(), Some(String::from("b")));
    let parent = path.parent().unwrap();
    assert_eq!(parent.display(), "/a");
    assert!(parent.join("b").same_as(&path));
    assert!(!parent.same_as(&path));
    assert!(!parent.join("c").same_as(&path));
    let mut deeper = path.duplicate();
    deeper.push("c");
    assert_eq!(deeper.display(), "/a/b/c");
    assert_eq!(path.display(), "/a/b");
    assert_eq!(deeper.ancestor(1).display(), "/a");
    assert!(deeper.ancestor(0).is_root());
    assert!(deeper.ancestor(3).same_as(&deeper));
    assert!(deeper.ancestor(9).same_as(&deeper));
}
