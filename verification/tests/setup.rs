use fdx::search::{
    build_pattern_regex, build_regex, ensure_current_directory_exists,
    ensure_search_pattern_is_not_a_path, extract_search_paths, extract_search_pattern,
    set_working_dir, PathProbe, SearchError,
};

fn probe(path: &str, is_dir: bool) -> PathProbe {
    PathProbe::new(path.to_string(), is_dir, is_dir)
}

#[test]
fn given_paths_are_filtered_in_order() {
    let given = vec![probe("a", true), probe("file.txt", false), probe("b", true), probe("gone", false)];
    let found = extract_search_paths(Some(given), &probe(".", true));
    assert_eq!(found.rejected, vec!["file.txt".to_string(), "gone".to_string()]);
    assert_eq!(found.paths.unwrap(), vec!["a".to_string(), "b".to_string()]);
}

#[test]
fn no_valid_search_path_is_an_error() {
    let found = extract_search_paths(Some(vec![probe("x", false)]), &probe(".", true));
    assert_eq!(found.rejected, vec!["x".to_string()]);
    assert!(matches!(found.paths, Err(SearchError::NoValidSearchPaths)));
    let found = extract_search_paths(Some(Vec::new()), &probe(".", true));
    assert!(found.rejected.is_empty());
    assert!(matches!(found.paths, Err(SearchError::NoValidSearchPaths)));
}

#[test]
fn current_directory_is_the_default_search_path() {
    let found = extract_search_paths(None, &probe(".", true));
    assert!(found.rejected.is_empty());
    assert_eq!(found.paths.unwrap(), vec![".".to_string()]);
    let found = extract_search_paths(None, &PathProbe::new(".".to_string(), true, false));
    assert!(matches!(found.paths, Err(SearchError::CurrentDirectoryMissing)));
}

#[test]
fn current_directory_must_exist() {
    assert!(ensure_current_directory_exists(&probe(".", true)).is_ok());
    assert!(matches!(
        ensure_current_directory_exists(&PathProbe::new(".".to_string(), true, false)),
        Err(SearchError::CurrentDirectoryMissing)
    ));
    assert!(matches!(
        ensure_current_directory_exists(&probe(".", false)),
        Err(SearchError::CurrentDirectoryMissing)
    ));
    assert!(probe("src", true).is_existing_directory());
}

#[test]
fn base_directory_must_be_a_directory() {
    assert!(matches!(set_working_dir(None), Ok(false)));
    assert!(matches!(set_working_dir(Some(&probe("base", true))), Ok(true)));
    match set_working_dir(Some(&probe("nowhere", false))) {
        Err(SearchError::BaseDirectoryNotADirectory(path)) => assert_eq!(path, "nowhere"),
        _ => panic!("a base directory that is none is turned down"),
    }
}

#[test]
fn pattern_defaults_to_empty() {
    assert_eq!(extract_search_pattern(None).unwrap(), "");
    assert_eq!(extract_search_pattern(Some(Some("foo.*".to_string()))).unwrap(), "foo.*");
    assert!(matches!(
        extract_search_pattern(Some(None)),
        Err(SearchError::InvalidPatternEncoding)
    ));
}

#[test]
fn pattern_that_is_a_path_is_turned_down() {
    match ensure_search_pattern_is_not_a_path(false, "src/bin", true) {
        Err(SearchError::PatternIsAPath(pattern)) => assert_eq!(pattern, "src/bin"),
        _ => panic!("a pattern that names a directory is turned down"),
    }
    assert!(ensure_search_pattern_is_not_a_path(true, "src/bin", true).is_ok());
    assert!(ensure_search_pattern_is_not_a_path(false, "src/bin", false).is_ok());
    assert!(ensure_search_pattern_is_not_a_path(false, "src", true).is_ok());
    assert!(ensure_search_pattern_is_not_a_path(false, "", true).is_ok());
}

#[test]
fn glob_is_turned_into_a_regex() {
    assert_eq!(build_pattern_regex(true, "*").unwrap(), "(?-u)^[^/]*$");
    assert_eq!(build_pattern_regex(true, "a?").unwrap(), "(?-u)^a[^/]$");
    assert_eq!(build_pattern_regex(false, "*").unwrap(), "*");
    assert_eq!(build_pattern_regex(true, "").unwrap(), "");
    assert_eq!(build_pattern_regex(false, "").unwrap(), "");
    match build_pattern_regex(true, "{a,b") {
        Err(SearchError::InvalidGlob(message)) => assert!(!message.is_empty()),
        _ => panic!("an unclosed alternative is turned down"),
    }
}

#[test]
fn regex_is_compiled_with_dot_matching_line_breaks() {
    let re = build_regex("^a.b$".to_string()).unwrap();
    assert!(re.is_match(b"a\nb"));
    assert!(re.is_match(b"axb"));
    assert!(!re.is_match(b"AXB"));
    assert!(!re.is_match(b"ab"));
    match build_regex("(".to_string()) {
        Err(SearchError::InvalidRegex(message)) => assert!(!message.is_empty()),
        _ => panic!("an unclosed group is turned down"),
    }
}
