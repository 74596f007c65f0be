use tabletbot::text::{decimal, hex_upper, parse_u64, unescape_newlines_in};

#[test]
fn decimal_matches_display() {
    for n in [0u64, 1, 9, 10, 99, 100, 1234567890, 1095473409958703164, u64::MAX] {
        assert_eq!(decimal(n), format!("{}", n));
    }
    assert_eq!(decimal(0), "0");
    assert_eq!(decimal(4096), "4096");
}

#[test]
fn hex_upper_matches_format() {
    for n in [0u64, 9, 10, 15, 16, 255, 0x56a, 0x28bd, 0xdead_beef, u64::MAX] {
        assert_eq!(hex_upper(n), format!("{:X}", n));
    }
    assert_eq!(hex_upper(255), "FF");
    assert_eq!(hex_upper(1386), "56A");
}

#[test]
fn parse_u64_accepts_what_std_accepts() {
    let cases = [
        "0", "42", "+7", "007", "", "+", "-", "-1", "12a", " 5", "5 ", "++5", "+-5",
        "18446744073709551615", "18446744073709551616", "99999999999999999999999",
        "\u{0661}\u{0662}", "1_000",
    ];
    for s in cases {
        assert_eq!(parse_u64(s), s.parse::<u64>().ok(), "input {:?}", s);
    }
    assert_eq!(parse_u64("1095473409958703164"), Some(1095473409958703164));
    assert_eq!(parse_u64("+0"), Some(0));
    assert_eq!(parse_u64("18446744073709551616"), None);
    assert_eq!(parse_u64("-1"), None);
}

#[test]
fn decimal_parses_back() {
    for n in [0u64, 7, 10, 1095473409958703164, u64::MAX - 1, u64::MAX] {
        assert_eq!(parse_u64(&decimal(n)), Some(n));
    }
}

#[test]
fn unescape_matches_replace() {
    let cases = [
        "", "plain", "a\\nb", "\\n", "\\", "n", "\\\\n", "\\n\\n", "end\\", "x\\ny\\nz", "\\t\\n",
        "ünï\\ncode",
    ];
    for s in cases {
        assert_eq!(unescape_newlines_in(s), s.replace(r#"\n"#, "\n"), "input {:?}", s);
    }
    assert_eq!(unescape_newlines_in("line one\\nline two"), "line one\nline two");
}
