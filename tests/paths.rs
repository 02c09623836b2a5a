use sass_import::paths::{
    is_absolute, join, matches_tilde_prefix, parent_path, partial_path, strip_tilde_prefix,
};

#[test]
fn partial_of_nested_path() {
    assert_eq!(partial_path("foo/bar"), Some("foo/_bar".to_string()));
}

#[test]
fn partial_of_single_segment() {
    assert_eq!(partial_path("bar"), Some("_bar".to_string()));
}

#[test]
fn partial_of_absolute_path() {
    assert_eq!(partial_path("/lp/foo"), Some("/lp/_foo".to_string()));
}

#[test]
fn partial_ignores_trailing_slash() {
    assert_eq!(partial_path("foo/"), Some("_foo".to_string()));
}

#[test]
fn partial_of_relative_dot_path() {
    assert_eq!(partial_path("./dir/name"), Some("./dir/_name".to_string()));
}

#[test]
fn no_partial_without_file_name() {
    assert_eq!(partial_path(""), None);
    assert_eq!(partial_path("/"), None);
    assert_eq!(partial_path("foo/.."), None);
    assert_eq!(partial_path("."), None);
}

#[test]
fn parent_of_paths() {
    assert_eq!(parent_path("a/b.scss"), Some("a".to_string()));
    assert_eq!(parent_path("b.scss"), Some("".to_string()));
    assert_eq!(parent_path("/a"), Some("/".to_string()));
    assert_eq!(parent_path("/proj/src/main.scss"), Some("/proj/src".to_string()));
    assert_eq!(parent_path("/"), None);
    assert_eq!(parent_path(""), None);
}

#[test]
fn join_paths() {
    assert_eq!(join("/lp", "a/b"), "/lp/a/b");
    assert_eq!(join("/lp/", "a"), "/lp/a");
    assert_eq!(join("", "a"), "a");
    assert_eq!(join("/lp", "/abs"), "/abs");
}

#[test]
fn absolute_paths() {
    assert!(is_absolute("/a"));
    assert!(!is_absolute("a/b"));
    assert!(!is_absolute(""));
}

#[test]
fn tilde_prefix_detection() {
    assert!(matches_tilde_prefix("~pkg/file"));
    assert!(matches_tilde_prefix("~pkg"));
    assert!(!matches_tilde_prefix("~/file"));
    assert!(!matches_tilde_prefix("~"));
    assert!(!matches_tilde_prefix("pkg/~file"));
}

#[test]
fn tilde_prefix_stripping() {
    assert_eq!(strip_tilde_prefix("~pkg/file"), "pkg/file");
    assert_eq!(strip_tilde_prefix("~bootstrap/scss/variables"), "bootstrap/scss/variables");
    assert_eq!(strip_tilde_prefix("pkg/file"), "pkg/file");
    assert_eq!(strip_tilde_prefix("~/file"), "~/file");
}

#[test]
fn trailing_dot_segment_is_ignored() {
    assert_eq!(parent_path("a/."), Some("".to_string()));
    assert_eq!(partial_path("a/."), Some("_a".to_string()));
    assert_eq!(parent_path("x/a/./"), Some("x".to_string()));
    assert_eq!(parent_path("/."), None);
    assert_eq!(partial_path("/."), None);
}
