use ethryx::text::{chars_of, hex_to_u64, parse_decimal, str_eq, trim_slashes, u64_decimal};

#[test]
fn hex_with_0x_prefix() {
    assert_eq!(hex_to_u64("0x10"), Some(16));
    assert_eq!(hex_to_u64("0xff"), Some(255));
    assert_eq!(hex_to_u64("0x0"), Some(0));
}

#[test]
fn hex_without_prefix() {
    assert_eq!(hex_to_u64("ff"), Some(255));
    assert_eq!(hex_to_u64("a"), Some(10));
}

#[test]
fn hex_invalid_returns_none() {
    assert_eq!(hex_to_u64("0xZZ"), None);
    assert_eq!(hex_to_u64(""), None);
    assert_eq!(hex_to_u64("not hex"), None);
}

#[test]
fn hex_handles_block_timestamp_width() {
    assert_eq!(hex_to_u64("0x671E0000"), Some(0x671E_0000));
}

const SAMPLES: [&str; 33] = [
    "",
    "+",
    "-",
    "0",
    "00",
    "7",
    "+7",
    "-7",
    "++7",
    " 7",
    "7 ",
    "1_000",
    "3.14",
    "abc",
    "ABCDEF",
    "0x",
    "0x0x10",
    "0X10",
    "+0x10",
    "0x+10",
    "é",
    "1é",
    "٣",
    "9412341",
    "18446744073709551615",
    "18446744073709551616",
    "18446744073709551620",
    "99999999999999999999999",
    "99999999999999999999999x",
    "1844674407370955161x",
    "ffffffffffffffff",
    "10000000000000000",
    "0xffffffffffffffff",
];

#[test]
fn decimal_parsing_agrees_with_std() {
    for s in SAMPLES {
        let ours = parse_decimal(s).map_err(|e| e.message().to_string());
        let theirs = s.parse::<u64>().map_err(|e| e.to_string());
        assert_eq!(ours, theirs, "{s:?}");
    }
}

#[test]
fn hex_parsing_agrees_with_std() {
    for s in SAMPLES {
        let theirs = u64::from_str_radix(s.trim_start_matches("0x"), 16).ok();
        assert_eq!(hex_to_u64(s), theirs, "{s:?}");
    }
}

#[test]
fn hex_prefix_is_optional() {
    for s in SAMPLES {
        assert_eq!(hex_to_u64(&format!("0x{s}")), hex_to_u64(s), "{s:?}");
    }
}

#[test]
fn decimal_rendering_agrees_with_std_and_reads_back() {
    for n in [0, 1, 9, 10, 11, 99, 100, 12_345_678_901, u64::MAX - 1, u64::MAX] {
        assert_eq!(u64_decimal(n), n.to_string());
        assert_eq!(parse_decimal(&u64_decimal(n)), Ok(n));
    }
}

#[test]
fn trailing_slashes_are_trimmed() {
    for s in ["", "/", "//", "http://x", "http://x/", "http://x///", "/a/", "é/"] {
        assert_eq!(trim_slashes(s), s.trim_end_matches('/'));
    }
}

#[test]
fn text_comparison_agrees_with_std() {
    for a in SAMPLES {
        for b in SAMPLES {
            assert_eq!(str_eq(a, b), a == b);
        }
        assert_eq!(chars_of(a), a.chars().collect::<Vec<char>>());
    }
}
