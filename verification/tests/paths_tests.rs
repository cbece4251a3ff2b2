use hud_core::paths::{normalize_path, path_match_type, str_eq, str_lex_gt, MatchType};

#[test]
fn test_normalize_path_strips_trailing_slash() {
    assert_eq!(normalize_path("/foo/bar/"), "/foo/bar");
    assert_eq!(normalize_path("/foo/bar"), "/foo/bar");
    assert_eq!(normalize_path("/"), "/");
    assert_eq!(normalize_path("/foo/"), "/foo");
}

#[test]
fn test_normalize_path_preserves_special_chars() {
    assert_eq!(normalize_path("/path/with spaces/"), "/path/with spaces");
    assert_eq!(normalize_path("/path/日本語/"), "/path/日本語");
    assert_eq!(normalize_path(r#"/path/"quotes"/"#), r#"/path/"quotes""#);
}

#[test]
fn normalize_path_collapses_repeated_trailing_slashes() {
    assert_eq!(normalize_path("/a///"), "/a");
}

#[test]
fn path_match_type_exact_child_parent() {
    assert_eq!(path_match_type("/a/b", "/a/b"), Some(MatchType::Exact));
    assert_eq!(path_match_type("/a/b/", "/a/b"), Some(MatchType::Exact));
    assert_eq!(path_match_type("/a/b/c", "/a/b"), Some(MatchType::Child));
    assert_eq!(path_match_type("/a", "/a/b"), Some(MatchType::Parent));
    assert_eq!(path_match_type("/a/bc", "/a/b"), None);
    assert_eq!(path_match_type("/x", "/y"), None);
}

#[test]
fn path_match_type_at_root() {
    assert_eq!(path_match_type("/", "/"), Some(MatchType::Exact));
    assert_eq!(path_match_type("/a", "/"), Some(MatchType::Child));
    assert_eq!(path_match_type("/", "/a"), Some(MatchType::Parent));
}

#[test]
fn str_eq_and_lex_order() {
    assert!(str_eq("abc", "abc"));
    assert!(!str_eq("abc", "abd"));
    assert!(!str_eq("abc", "ab"));
    assert!(str_lex_gt("b", "a"));
    assert!(str_lex_gt("ab", "a"));
    assert!(!str_lex_gt("a", "a"));
    assert!(!str_lex_gt("a", "b"));
}
