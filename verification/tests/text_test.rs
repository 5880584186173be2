use nmrs_gui::text::{
    chars_of, str_concat, contains, decimal_string, is_blank, join, parse_u32, signed_decimal_string,
    split_comma_list, str_eq, string_of, trim,
};

#[test]
fn trim_strips_unicode_white_space_at_both_ends() {
    assert_eq!(trim("  wg0 \t\n"), "wg0");
    assert_eq!(trim("\u{00A0}\u{3000}a b\u{2009}"), "a b");
    assert_eq!(trim("   "), "");
    assert_eq!(trim(""), "");
    assert_eq!(trim("x"), "x");
}

#[test]
fn blank_means_only_white_space() {
    assert!(is_blank(""));
    assert!(is_blank(" \t\r\n"));
    assert!(!is_blank(" a "));
    assert!(!is_blank("."));
}

#[test]
fn comma_list_trims_and_drops_empty_entries() {
    assert_eq!(split_comma_list("10.0.0.0/8, 192.168.1.0/24"), vec!["10.0.0.0/8", "192.168.1.0/24"]);
    assert_eq!(split_comma_list(" ,a,, b ,"), vec!["a", "b"]);
    assert_eq!(split_comma_list(""), Vec::<String>::new());
    assert_eq!(split_comma_list(",,,"), Vec::<String>::new());
    assert_eq!(split_comma_list("0.0.0.0/0"), vec!["0.0.0.0/0"]);
}

#[test]
fn comma_list_entries_have_no_outer_space() {
    for entry in split_comma_list("  1.1.1.1 ,\t8.8.8.8\n, ,") {
        assert!(!entry.is_empty());
        assert_eq!(entry.trim(), entry);
    }
}

#[test]
fn parse_u32_follows_std() {
    for s in ["25", "+25", "0", "007", "4294967295", "4294967296", "", "+", "-1", "-0", " 1", "1 ", "1a", "99999999999"] {
        assert_eq!(parse_u32(s), s.parse::<u32>().ok(), "input {s:?}");
    }
    assert_eq!(parse_u32("1420"), Some(1420));
    assert_eq!(parse_u32("+7"), Some(7));
    assert_eq!(parse_u32("4294967296"), None);
}

#[test]
fn decimal_strings_match_to_string() {
    for n in [0u64, 7, 10, 99, 100, 65535, u64::MAX] {
        assert_eq!(decimal_string(n), n.to_string());
    }
    for i in [0i64, -1, 42, -42, i64::MIN, i64::MAX] {
        assert_eq!(signed_decimal_string(i), i.to_string());
    }
}

#[test]
fn contains_finds_runs_of_characters() {
    assert!(contains("wrong password", "password"));
    assert!(contains("abc", ""));
    assert!(!contains("", "a"));
    assert!(!contains("pas", "pass"));
    assert!(contains("ééa", "éa"));
}

#[test]
fn join_puts_separator_between_items() {
    let list = vec!["a".to_string(), "b".to_string(), "c".to_string()];
    assert_eq!(join(&list, ", "), "a, b, c");
    assert_eq!(join(&list[..1], ", "), "a");
    assert_eq!(join(&[], ", "), "");
}

#[test]
fn small_string_helpers() {
    assert!(str_eq("networks", "networks"));
    assert!(!str_eq("networks", "network"));
    assert_eq!(str_concat("Captive portal: ", "http://x"), "Captive portal: http://x");
    let cs = chars_of("héllo");
    assert_eq!(cs, vec!['h', 'é', 'l', 'l', 'o']);
    assert_eq!(string_of(&cs), "héllo");
}
