use cp_config::models::working_tree::{is_name_acceptable, is_name_segment, TreePath};
use cp_config::text::{position_of, same_text};

fn segments(path: &TreePath) -> Vec<&str> {
    path.segments.iter().map(|segment| segment.as_str()).collect()
}

#[test]
fn the_layout_of_a_working_directory() {
    assert_eq!(vec!["work"], segments(&TreePath::root("work")));
    assert_eq!(vec!["work", "download"], segments(&TreePath::download("work")));
    assert_eq!(vec!["work", "staging"], segments(&TreePath::environment("work", "staging")));
    assert_eq!(
        vec!["work", "staging", "web"],
        segments(&TreePath::component("work", "staging", "web"))
    );
    assert_eq!(
        vec!["work", "staging", "1f.zip"],
        segments(&TreePath::archive("work", "staging", "1f", "zip"))
    );
}

#[test]
fn an_archive_is_named_by_token_and_extension() {
    let archive = TreePath::archive("work", "staging", "0b7e8a52", "tar.gz");

    assert_eq!("0b7e8a52.tar.gz", archive.segments[2]);
    assert_eq!(".", TreePath::archive("", "", "", "").segments[2]);
}

#[test]
fn a_copy_of_a_path_is_the_same_path() {
    let path = TreePath::component("work", "staging", "web");

    assert_eq!(path, path.clone());
}

#[test]
fn ordinary_names_are_accepted() {
    for name in [
        "main",
        "dummy",
        "development",
        "feature/login",
        "v1.2.3",
        "a..b",
        "...",
        ".",
        "..a",
        "a..",
        ".hidden",
        "",
        "späti",
        "a/.../b",
        "/",
    ] {
        assert!(is_name_acceptable(name), "{:?} should be accepted", name);
    }
}

#[test]
fn names_that_traverse_upward_are_refused() {
    for name in ["..", "../main", "main/..", "a/../b", "/..", "../", "../..", "a/b/../../c", "é/.."]
    {
        assert!(!is_name_acceptable(name), "{:?} should be refused", name);
    }
}

#[test]
fn names_with_a_nul_are_refused() {
    for name in ["\0", "ma\0in", "main\0", "\0main", "é\0"] {
        assert!(!is_name_acceptable(name), "{:?} should be refused", name);
    }
}

#[test]
fn texts_are_the_same_when_their_characters_are() {
    assert!(same_text("", ""));
    assert!(same_text("main", "main"));
    assert!(same_text("späti", "späti"));
    assert!(!same_text("main", "mai"));
    assert!(!same_text("main", "maim"));
    assert!(!same_text("main", "Main"));
    assert!(!same_text("", " "));
}

#[test]
fn the_first_position_of_a_text_is_found() {
    let items = vec!["a".to_string(), "b".to_string(), "a".to_string()];

    assert_eq!(Some(0), position_of(&items, "a"));
    assert_eq!(Some(1), position_of(&items, "b"));
    assert_eq!(None, position_of(&items, "c"));
    assert_eq!(None, position_of(&Vec::new(), "a"));
}

#[test]
fn bytes_are_the_same_when_each_of_them_is() {
    assert!(cp_config::text::same_bytes(&[], &[]));
    assert!(cp_config::text::same_bytes(&[1, 2, 3], &[1, 2, 3]));
    assert!(!cp_config::text::same_bytes(&[1, 2, 3], &[1, 2]));
    assert!(!cp_config::text::same_bytes(&[1, 2], &[1, 2, 3]));
    assert!(!cp_config::text::same_bytes(&[1, 2, 3], &[1, 2, 4]));
    assert!(!cp_config::text::same_bytes(&[0], &[]));
}

#[test]
fn single_names_are_segments() {
    for name in [
        "dummy",
        "development",
        "web",
        "v1.2.3",
        "a..b",
        "...",
        "..a",
        "a..",
        ".hidden",
        "späti",
        "0b7e8a52-3c59-4f0e-8d0b-1f4c2a9e6d33.zip",
        " ",
    ] {
        assert!(is_name_segment(name), "{:?} should be a segment", name);
    }
}

#[test]
fn names_that_are_no_single_level_are_no_segments() {
    for name in [
        "",
        ".",
        "..",
        "/",
        "/etc",
        "etc/",
        "a/b",
        "../main",
        "a/../b",
        "\0",
        "ma\0in",
        "é/",
        "é\0",
    ] {
        assert!(!is_name_segment(name), "{:?} should be no segment", name);
    }
}
