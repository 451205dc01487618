use poll_engine::text::parse_u64_digits;
use poll_engine::text::split_lines;
use poll_engine::text::str_contains;
use poll_engine::text::str_ends_with;
use poll_engine::text::str_starts_with;
use poll_engine::text::trim_end;
use poll_engine::text::u64_to_dec;

#[test]
fn decimal_rendering() {
    assert_eq!(u64_to_dec(0), "0");
    assert_eq!(u64_to_dec(7), "7");
    assert_eq!(u64_to_dec(120), "120");
    assert_eq!(u64_to_dec(u64::MAX), "18446744073709551615");
}

#[test]
fn decimal_parsing() {
    assert_eq!(parse_u64_digits("0"), Some(0));
    assert_eq!(parse_u64_digits("120"), Some(120));
    assert_eq!(parse_u64_digits("18446744073709551615"), Some(u64::MAX));
    assert_eq!(parse_u64_digits("18446744073709551616"), None);
    assert_eq!(parse_u64_digits(""), None);
    assert_eq!(parse_u64_digits("1 2"), None);
    assert_eq!(parse_u64_digits("-1"), None);
}

#[test]
fn rendering_then_parsing_is_identity() {
    for n in [0u64, 1, 9, 10, 99, 100, 4096, u64::MAX] {
        assert_eq!(parse_u64_digits(&u64_to_dec(n)), Some(n));
    }
}

#[test]
fn line_splitting_mirrors_line_iteration() {
    assert_eq!(
        split_lines("a\nb\r\nc"),
        vec!["a".to_string(), "b".to_string(), "c".to_string()]
    );
    assert_eq!(split_lines("a\n"), vec!["a".to_string()]);
    assert_eq!(
        split_lines("a\n\nb"),
        vec!["a".to_string(), String::new(), "b".to_string()]
    );
    assert_eq!(split_lines(""), Vec::<String>::new());
}

#[test]
fn affix_checks() {
    assert!(str_starts_with("var x = 1;", "var "));
    assert!(!str_starts_with("va", "var "));
    assert!(str_ends_with("var x = \"1\";", "\";"));
    assert!(!str_ends_with(";", "\";"));
    assert!(str_contains("data var status_c = tail", "var status_c = "));
    assert!(!str_contains("var status", "var status_c = "));
}

#[test]
fn trailing_whitespace_is_trimmed() {
    assert_eq!(trim_end("X1  "), "X1");
    assert_eq!(trim_end("X1\t\r\n"), "X1");
    assert_eq!(trim_end("  X1"), "  X1");
    assert_eq!(trim_end(""), "");
    assert_eq!(trim_end(" \t"), "");
}
