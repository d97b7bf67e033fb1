use uwu_companion::text::{
    capitalize, char_to_uppercase, clean_text, contains, find, i64_to_text, is_whitespace, join,
    parse_i64, replace, split_once, starts_with, str_eq, to_lowercase, trim, trim_start_matches,
    u64_to_text,
};

#[test]
fn trimming_removes_unicode_whitespace_at_both_ends() {
    assert_eq!(trim("  hello world \n"), "hello world");
    assert_eq!(trim("\u{3000}x\u{2003}"), "x");
    assert_eq!(trim("   "), "");
    assert!(is_whitespace('\t'));
    assert!(!is_whitespace('a'));
}

#[test]
fn searching_in_text() {
    assert!(starts_with("@every:5", "@every:"));
    assert!(!starts_with("@ever", "@every:"));
    assert!(str_eq("abc", "abc"));
    assert!(!str_eq("abc", "abd"));
    assert!(contains("hello world", "o w"));
    assert!(contains("x", ""));
    assert!(!contains("hello", "world"));
    assert_eq!(find("a - b - c", " - "), Some(1));
    assert_eq!(find("abc", "z"), None);
    assert_eq!(split_once("a - b - c", " - "), Some(("a", "b - c")));
    assert_eq!(split_once("abc", " - "), None);
}

#[test]
fn prefix_is_stripped_repeatedly() {
    assert_eq!(trim_start_matches("@every:@every:5", "@every:"), "5");
    assert_eq!(trim_start_matches("5", "@every:"), "5");
}

#[test]
fn cleaning_removes_markup_and_squeezes_spaces() {
    assert_eq!(clean_text("  **Hello**   `world`  # ", false), "Hello world");
    assert_eq!(clean_text("\"Quoted\" text", true), "Quoted text");
    assert_eq!(clean_text("\"Quoted\" text", false), "\"Quoted\" text");
    assert_eq!(clean_text("", false), "");
    assert_eq!(clean_text("a\n\tb", false), "a b");
}

#[test]
fn cleaning_twice_changes_nothing() {
    for s in ["  **a**  b ", "x\ny", "\"q\" *", ""] {
        let once = clean_text(s, true);
        assert_eq!(clean_text(&once, true), once);
    }
}

#[test]
fn replacing_every_occurrence() {
    assert_eq!(replace("Hi {name}, {name}!", "{name}", "Ann"), "Hi Ann, Ann!");
    assert_eq!(replace("aaa", "aa", "b"), "ba");
    assert_eq!(replace("abc", "x", "y"), "abc");
}

#[test]
fn numbers_round_trip_through_text() {
    assert_eq!(i64_to_text(-42), "-42");
    assert_eq!(u64_to_text(18446744073709551615), "18446744073709551615");
    assert_eq!(parse_i64("15"), Some(15));
    assert_eq!(parse_i64("+15"), Some(15));
    assert_eq!(parse_i64("-9223372036854775808"), Some(i64::MIN));
    assert_eq!(parse_i64("9223372036854775808"), None);
    assert_eq!(parse_i64(""), None);
    assert_eq!(parse_i64("1 "), None);
    assert_eq!(parse_i64("-"), None);
    for n in [0i64, 7, -7, i64::MAX, i64::MIN, 1234567890] {
        assert_eq!(parse_i64(&i64_to_text(n)), Some(n));
    }
}

#[test]
fn case_mappings() {
    assert_eq!(to_lowercase("Visual STUDIO"), "visual studio");
    assert_eq!(char_to_uppercase('ß'), "SS");
    assert_eq!(capitalize("motivation"), "Motivation");
    assert_eq!(capitalize(""), "");
}

#[test]
fn joining_pieces() {
    let parts = vec!["a".to_string(), "b".to_string(), "c".to_string()];
    assert_eq!(join(&parts, ", "), "a, b, c");
    assert_eq!(join(&Vec::new(), ", "), "");
}

#[test]
fn trimming_twice_changes_nothing() {
    for s in ["  a b  ", "\t\n", "x", ""] {
        assert_eq!(trim(trim(s)), trim(s));
    }
}

#[test]
fn rendering_integers() {
    assert_eq!(u64_to_text(0), "0");
    assert_eq!(u64_to_text(10), "10");
    assert_eq!(i64_to_text(0), "0");
    assert_eq!(i64_to_text(i64::MIN), "-9223372036854775808");
    assert_eq!(i64_to_text(i64::MAX), "9223372036854775807");
}
