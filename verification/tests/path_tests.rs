use tl::errors::InstallError;
use tl::paths::{expand_install_path, expand_path, is_in_path, join_path};
use tl::strutil::split_on_char;

#[test]
fn expand_substitutes_home() {
    let home = Some("/home/u".to_string());
    assert_eq!(expand_path("~/bin", &home).unwrap(), "/home/u/bin");
    assert_eq!(expand_path("~/.local/bin", &home).unwrap(), "/home/u/.local/bin");
}

#[test]
fn expand_leaves_absolute_paths_alone() {
    let home = Some("/home/u".to_string());
    assert_eq!(expand_path("/opt/tools", &home).unwrap(), "/opt/tools");
    assert_eq!(expand_path("/opt/tools", &None).unwrap(), "/opt/tools");
    // A bare tilde without the separator is not the shorthand.
    assert_eq!(expand_path("~", &None).unwrap(), "~");
}

#[test]
fn expand_without_home_fails() {
    let r = expand_path("~/bin", &None);
    assert_eq!(r.unwrap_err(), InstallError::HomeDirectoryUnresolvable);
}

#[test]
fn expand_install_path_resolves_against_real_home() {
    // The machine's own home directory decides the outcome; either way the
    // shorthand must be gone from a successful expansion.
    match expand_install_path("~/bin") {
        Ok(p) => {
            assert!(!p.starts_with('~'));
            assert!(p.ends_with("/bin"));
        }
        Err(e) => assert_eq!(e, InstallError::HomeDirectoryUnresolvable),
    }
    assert_eq!(expand_install_path("/opt/tools").unwrap(), "/opt/tools");
}

#[test]
fn join_inserts_a_single_separator() {
    assert_eq!(join_path("/usr/local/bin", "tool"), "/usr/local/bin/tool");
    assert_eq!(join_path("/usr/local/bin/", "tool"), "/usr/local/bin/tool");
    assert_eq!(join_path("", "tool"), "tool");
}

#[test]
fn split_keeps_empty_pieces() {
    let p = split_on_char("/a:/b::/c", ':');
    assert_eq!(p, vec!["/a", "/b", "", "/c"]);
    assert_eq!(split_on_char("", ':'), vec![""]);
    assert_eq!(split_on_char("abc", ':'), vec!["abc"]);
    assert_eq!(split_on_char(":", ':'), vec!["", ""]);
}

#[test]
fn literal_search_path_match() {
    let entries = vec!["/usr/bin".to_string(), "/home/u/bin".to_string()];
    let canons: Vec<Option<String>> = vec![None, None];
    assert!(is_in_path("/home/u/bin", &entries, &canons, &None));
    assert!(!is_in_path("/home/u/other", &entries, &canons, &None));
}

#[test]
fn canonical_search_path_match() {
    // The entry differs literally but both sides canonicalize to the same
    // directory, as when one of them goes through a symlink.
    let entries = vec!["/usr/bin".to_string(), "/home/u/link".to_string()];
    let canons = vec![None, Some("/home/u/real".to_string())];
    let dir_canon = Some("/home/u/real".to_string());
    assert!(is_in_path("/home/u/bin", &entries, &canons, &dir_canon));
}

#[test]
fn unresolvable_directories_never_match_and_never_error() {
    // Canonicalization failures (a nonexistent directory) are non-matches.
    let entries = vec!["/does/not/exist".to_string()];
    let canons: Vec<Option<String>> = vec![None];
    assert!(!is_in_path("/also/missing", &entries, &canons, &None));
    let dir_canon = Some("/also/missing".to_string());
    assert!(!is_in_path("/also/missing2", &entries, &canons, &dir_canon));
}
