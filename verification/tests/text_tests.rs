use fabric_nb::text::{
    eq_ignore_ascii_case, first_line, i64_to_string, is_guid, lines, parse_u64, trim,
    trim_end_matches, u64_to_string,
};

#[test]
fn eq_ignore_ascii_case_matches_case_variants() {
    assert!(eq_ignore_ascii_case("My Workspace", "my WORKSPACE"));
    assert!(!eq_ignore_ascii_case("My Workspace", "My Workspac"));
    assert!(!eq_ignore_ascii_case("é", "É"));
}

#[test]
fn is_guid_accepts_guid_and_rejects_others() {
    assert!(is_guid("5feab05a-68a8-43af-a621-2571b5fcd3fd"));
    assert!(is_guid("5FEAB05A-68A8-43AF-A621-2571B5FCD3FD"));
    assert!(!is_guid("5feab05a-68a8-43af-a621-2571b5fcd3f"));
    assert!(!is_guid("5feab05a-68a8-43af-a621-2571b5fcd3fg"));
    assert!(!is_guid("5feab05a-68a8-43af-a621-2571b5fcd3-d"));
    assert!(!is_guid("My Workspace"));
}

#[test]
fn trim_removes_unicode_whitespace() {
    assert_eq!(trim("  a b \t\n"), "a b");
    assert_eq!(trim("\u{3000}x\u{a0}"), "x");
    assert_eq!(trim("   "), "");
}

#[test]
fn trim_end_matches_removes_repeats() {
    assert_eq!(trim_end_matches("WS.Workspace.Workspace", ".Workspace"), "WS");
    assert_eq!(trim_end_matches("WS", ".Workspace"), "WS");
    assert_eq!(trim_end_matches("https://h///", "/"), "https://h");
}

#[test]
fn first_line_follows_str_lines() {
    assert_eq!(first_line("abc\r\ndef"), "abc");
    assert_eq!(first_line("abc\rdef"), "abc\rdef");
    assert_eq!(first_line(""), "");
    assert_eq!(first_line("\nx"), "");
}

#[test]
fn lines_follows_str_lines() {
    let got = lines("a\r\nb\n\nc\n");
    let want: Vec<String> = "a\r\nb\n\nc\n".lines().map(|s| s.to_string()).collect();
    assert_eq!(got, want);
    assert_eq!(lines(""), Vec::<String>::new());
    assert_eq!(lines("x\r"), vec!["x\r".to_string()]);
}

#[test]
fn parse_u64_follows_from_str() {
    assert_eq!(parse_u64("30"), Some(30));
    assert_eq!(parse_u64("+7"), Some(7));
    assert_eq!(parse_u64("18446744073709551615"), Some(u64::MAX));
    assert_eq!(parse_u64("18446744073709551616"), None);
    assert_eq!(parse_u64(""), None);
    assert_eq!(parse_u64("+"), None);
    assert_eq!(parse_u64("-1"), None);
    assert_eq!(parse_u64(" 5"), None);
    assert_eq!(parse_u64("99999999999999999999x"), None);
}

#[test]
fn integers_print_in_decimal() {
    assert_eq!(u64_to_string(0), "0");
    assert_eq!(u64_to_string(1234567890), "1234567890");
    assert_eq!(u64_to_string(u64::MAX), u64::MAX.to_string());
    assert_eq!(i64_to_string(-42), "-42");
    assert_eq!(i64_to_string(i64::MIN), i64::MIN.to_string());
}
