use ncl::text::{
    chars_of, contains_chars, find_char, join_strings, owned, push_decimal, replace_chars,
    starts_with_chars, str_contains, str_eq, str_starts_with,
    trim, trim_end_char_exec,
};

fn s(v: Vec<char>) -> String {
    v.into_iter().collect()
}

#[test]
fn contains_and_prefix() {
    assert!(str_contains("docker compose up", "compose"));
    assert!(str_contains("abc", ""));
    assert!(!str_contains("ab", "abc"));
    assert!(str_starts_with("https://x", "https://"));
    assert!(!str_starts_with("http://x", "https://"));
    let a = chars_of("aab");
    assert!(contains_chars(&a, &chars_of("ab")));
    assert!(starts_with_chars(&a, &chars_of("aa")));
    assert!(str_eq("x", "x") && !str_eq("x", "y"));
}

#[test]
fn replace_matches_std_replace() {
    for (text, pat, rep) in [
        ("aaa", "aa", "b"),
        ("abb", "ab", "a"),
        ("{{x}}-{{x}}", "{{x}}", "42"),
        ("no match", "zz", "q"),
    ] {
        let got = s(replace_chars(&chars_of(text), &chars_of(pat), &chars_of(rep)));
        assert_eq!(got, text.replace(pat, rep));
    }
}

#[test]
fn trimming_and_lowercase() {
    assert_eq!(trim("  a b \t\n"), "a b");
    assert_eq!(trim("   "), "");
    assert_eq!(s(trim_end_char_exec(&chars_of("http://x///"), '/')), "http://x");
}

#[test]
fn find_join_and_decimal() {
    assert_eq!(find_char(&chars_of("a:b:c"), ':'), Some(1));
    assert_eq!(find_char(&chars_of("abc"), ':'), None);
    let parts = vec!["a".to_string(), "b".to_string(), "c".to_string()];
    assert_eq!(s(join_strings(&parts, ", ")), "a, b, c");
    assert_eq!(s(join_strings(&Vec::new(), ", ")), "");
    let mut v = Vec::new();
    push_decimal(&mut v, 0);
    assert_eq!(s(v), "0");
    let mut v = Vec::new();
    push_decimal(&mut v, 18446744073709551615);
    assert_eq!(s(v), "18446744073709551615");
    assert_eq!(owned("é"), "é");
}

#[test]
fn whitespace_matches_std_for_every_char() {
    for c in (0u32..=0x10FFFF).filter_map(char::from_u32) {
        let s = c.to_string();
        assert_eq!(trim(&s), s.trim(), "{:?}", c);
    }
}
