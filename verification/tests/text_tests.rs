use kaze::text::{
    concat3, contains_text, contains_whitespace, decimal_text, join_strings,
    parse_first_field_u64, parse_trimmed_u64, same_text, signed_decimal_text, split_whitespace,
};

#[test]
fn split_whitespace_drops_runs_of_spaces() {
    let words = split_whitespace("  docker system prune -af   ");
    assert_eq!(words, vec!["docker", "system", "prune", "-af"]);
}

#[test]
fn split_whitespace_on_tabs_newlines_and_unicode_spaces() {
    let words = split_whitespace("a\tb\nc\u{3000}d\u{a0}e");
    assert_eq!(words, vec!["a", "b", "c", "d", "e"]);
}

#[test]
fn split_whitespace_of_blank_text_is_empty() {
    assert!(split_whitespace("").is_empty());
    assert!(split_whitespace(" \t \n").is_empty());
}

#[test]
fn contains_text_finds_substrings() {
    assert!(contains_text("/usr/bin/pacman", "pacman"));
    assert!(contains_text("yay -Syu", "yay"));
    assert!(!contains_text("/usr/bin/bash", "pacman"));
    assert!(contains_text("anything", ""));
    assert!(!contains_text("np", "npm"));
}

#[test]
fn parse_trimmed_u64_reads_du_output() {
    assert_eq!(parse_trimmed_u64("123456\n"), Some(123456));
    assert_eq!(parse_trimmed_u64("  +7 "), Some(7));
    assert_eq!(parse_trimmed_u64("18446744073709551615"), Some(u64::MAX));
    assert_eq!(parse_trimmed_u64("18446744073709551616"), None);
    assert_eq!(parse_trimmed_u64(""), None);
    assert_eq!(parse_trimmed_u64("+"), None);
    assert_eq!(parse_trimmed_u64("-1"), None);
    assert_eq!(parse_trimmed_u64("12 MB"), None);
}

#[test]
fn decimal_text_writes_numbers() {
    assert_eq!(decimal_text(0), "0");
    assert_eq!(decimal_text(42), "42");
    assert_eq!(decimal_text(u64::MAX), "18446744073709551615");
    assert_eq!(signed_decimal_text(-5), "-5");
    assert_eq!(signed_decimal_text(i32::MIN), "-2147483648");
    assert_eq!(signed_decimal_text(137), "137");
}

#[test]
fn join_and_compare_text() {
    let parts = vec!["npm".to_string(), "cache".to_string(), "verify".to_string()];
    assert_eq!(join_strings(&parts, " "), "npm cache verify");
    assert_eq!(join_strings(&Vec::new(), " "), "");
    assert!(same_text("npm", "npm"));
    assert!(!same_text("npm", "pnpm"));
    assert_eq!(concat3("a", "b", "c"), "abc");
}

#[test]
fn first_field_is_read_up_to_the_tab() {
    assert_eq!(parse_first_field_u64("5242880\t/home/u/.npm/_cacache\n"), Some(5242880));
    assert_eq!(parse_first_field_u64(" 42 \n"), Some(42));
    assert_eq!(parse_first_field_u64("12\t34"), Some(12));
    assert_eq!(parse_first_field_u64("\t34"), None);
    assert_eq!(parse_first_field_u64("du: cannot access"), None);
    assert_eq!(parse_first_field_u64(""), None);
}

#[test]
fn whitespace_is_found_anywhere() {
    assert!(contains_whitespace("/home/my user"));
    assert!(contains_whitespace("a\tb"));
    assert!(!contains_whitespace("/home/u"));
    assert!(!contains_whitespace(""));
}
