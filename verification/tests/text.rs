use hoi4_ui::text::{
    chars_of, decimal_string, find_chars, join_strings, parse_usize, str_contains, str_eq,
    str_starts_with, trim_chars,
};

fn v(s: &str) -> Vec<char> {
    s.chars().collect()
}

#[test]
fn parse_matches_std() {
    for s in ["", "+", "-0", "0", "+7", "007", "12a", " 1", "18446744073709551615", "18446744073709551616", "99999999999999999999"] {
        assert_eq!(parse_usize(&v(s)), s.parse::<usize>().ok(), "{s:?}");
    }
}

#[test]
fn decimal_strings_read_back() {
    for n in [0u64, 7, 10, 99, 100, 65535, u32::MAX as u64, u64::MAX] {
        let text = decimal_string(n);
        assert_eq!(text, n.to_string());
        assert_eq!(parse_usize(&v(&text)), Some(n as usize));
    }
}

#[test]
fn find_and_contains() {
    assert_eq!(find_chars(&v("abcabc"), &v("ca")), Some(2));
    assert_eq!(find_chars(&v("abc"), &v("")), Some(0));
    assert_eq!(find_chars(&v("ab"), &v("abc")), None);
    assert!(str_contains("国家精神 spirit_grid", "spirit_grid"));
    assert!(!str_contains("spirit", "spirit_grid"));
}

#[test]
fn trim_equality_prefix() {
    assert_eq!(trim_chars(&v("\u{3000} a b \n")), v("a b"));
    assert_eq!(trim_chars(&v(" \t ")), Vec::<char>::new());
    assert!(str_eq("总览", "总览"));
    assert!(!str_eq("总览", "总"));
    assert!(str_starts_with("GFX_idea", "GFX_"));
    assert!(!str_starts_with("GF", "GFX_"));
    assert_eq!(chars_of("ab"), vec!['a', 'b']);
    assert_eq!(join_strings(&["a".to_owned(), "b".to_owned()], ", "), "a, b");
}
