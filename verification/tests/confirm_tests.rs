use tl::confirm::is_affirmative;

#[test]
fn plain_affirmatives() {
    assert!(is_affirmative("y"));
    assert!(is_affirmative("yes"));
}

#[test]
fn case_insensitive_affirmatives() {
    assert!(is_affirmative("Y"));
    assert!(is_affirmative("YES"));
    assert!(is_affirmative("Yes"));
    assert!(is_affirmative("yEs"));
}

#[test]
fn surrounding_whitespace_is_ignored() {
    assert!(is_affirmative(" y "));
    assert!(is_affirmative("\tyes\n"));
    assert!(is_affirmative("yes\r\n"));
}

#[test]
fn everything_else_declines() {
    assert!(!is_affirmative(""));
    assert!(!is_affirmative(" "));
    assert!(!is_affirmative("n"));
    assert!(!is_affirmative("no"));
    assert!(!is_affirmative("ye"));
    assert!(!is_affirmative("yess"));
    assert!(!is_affirmative("yes please"));
    assert!(!is_affirmative("y e s"));
}
