use bombinger::text::{chars_of, contains, copy_all, copy_opt, occurs, remove_char};

#[test]
fn characters_come_out_one_by_one() {
    assert_eq!(chars_of("a\u{e9}\u{1F600}z"), vec!['a', '\u{e9}', '\u{1F600}', 'z']);
    assert_eq!(chars_of(""), Vec::<char>::new());
}

#[test]
fn substring_is_found_anywhere() {
    assert!(contains("Quick Look: Doom", "Quick"));
    assert!(contains("Quick Look: Doom", "Look: D"));
    assert!(contains("Quick Look: Doom", "Doom"));
    assert!(contains("Quick Look: Doom", "Quick Look: Doom"));
    assert!(!contains("Quick Look: Doom", "Quick Look: Doom!"));
    assert!(!contains("Quick Look: Doom", "Quake"));
}

#[test]
fn substring_search_is_case_sensitive() {
    assert!(!contains("Quick Look", "quick"));
    assert!(!contains("Quick Look", "LOOK"));
}

#[test]
fn empty_pattern_is_part_of_every_text() {
    assert!(contains("abc", ""));
    assert!(contains("", ""));
    assert!(!contains("", "a"));
}

#[test]
fn substring_search_agrees_with_std() {
    let texts = ["", "a", "aa", "aab", "abab", "ab\u{e9}ab", "mississippi"];
    let patterns = ["", "a", "b", "ab", "aab", "ba", "ssi", "ssip", "\u{e9}a", "pi", "ppix"];
    for text in texts {
        for pattern in patterns {
            assert_eq!(contains(text, pattern), text.contains(pattern));
        }
    }
}

#[test]
fn occurs_works_on_character_lists() {
    assert!(occurs(&vec!['a', 'b', 'c'], &vec!['b', 'c']));
    assert!(!occurs(&vec!['a', 'b', 'c'], &vec!['c', 'b']));
    assert!(!occurs(&vec!['a'], &vec!['a', 'a']));
}

#[test]
fn every_occurrence_of_the_character_goes() {
    assert_eq!(remove_char("a/b//c/", '/'), "abc");
    assert_eq!(remove_char("///", '/'), "");
    assert_eq!(remove_char("no slash", '/'), "no slash");
    assert_eq!(remove_char("", '/'), "");
    assert_eq!(remove_char("back\\slash/", '/'), "back\\slash");
}

#[test]
fn copies_hold_the_same_text() {
    let list = vec!["one".to_string(), "".to_string(), "three".to_string()];
    assert_eq!(copy_all(&list), list);
    assert_eq!(copy_opt(&Some("x".to_string())), Some("x".to_string()));
    assert_eq!(copy_opt(&None), None);
}
