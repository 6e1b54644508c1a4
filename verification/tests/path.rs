use standard_paths::path::ResolvedPath;

#[test]
fn a_new_path_is_the_answer_alone() {
    let path = ResolvedPath::new("C:\\Users\\me");
    assert_eq!(path.base(), "C:\\Users\\me");
    assert!(path.segments().is_empty());
}

#[test]
fn push_nests_segments_in_order() {
    let mut path = ResolvedPath::new("/home/me");
    path.push("org");
    path.push("app");
    assert_eq!(path.base(), "/home/me");
    assert_eq!(path.segments(), &vec![String::from("org"), String::from("app")]);
}

#[test]
fn push_keeps_an_empty_segment() {
    let mut path = ResolvedPath::new("/home/me");
    path.push("");
    assert_eq!(path.segments(), &vec![String::new()]);
}

#[test]
fn a_clone_is_equal_and_independent() {
    let mut path = ResolvedPath::new("/home/me");
    path.push("org");
    let mut copy = path.clone();
    assert_eq!(copy, path);
    copy.push("app");
    assert_ne!(copy, path);
    assert_eq!(path.segments().len(), 1);
}

#[test]
fn paths_differ_by_their_answer() {
    assert_ne!(ResolvedPath::new("/a"), ResolvedPath::new("/b"));
    assert_eq!(ResolvedPath::new("/a"), ResolvedPath::new("/a"));
}

#[test]
fn paths_differ_by_their_segments() {
    let mut left = ResolvedPath::new("/a");
    let mut right = ResolvedPath::new("/a");
    left.push("x");
    right.push("y");
    assert_ne!(left, right);
    assert_ne!(left, ResolvedPath::new("/a"));
}

#[test]
fn the_answer_and_the_segments_are_kept_apart() {
    let mut nested = ResolvedPath::new("/a");
    nested.push("b");
    assert_ne!(nested, ResolvedPath::new("/a/b"));
}

#[test]
fn paths_differ_by_a_later_segment() {
    let mut left = ResolvedPath::new("/a");
    let mut right = ResolvedPath::new("/a");
    left.push("x");
    left.push("y");
    right.push("x");
    right.push("z");
    assert_ne!(left, right);
}
