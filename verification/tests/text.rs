use switch_bt_ws::text::{
    contains_chars, decimal_chars, find_chars, hex4_chars, parse_i32, parse_u16_radix, str_chars,
    string_from_chars, trim_chars,
};

fn chars(s: &str) -> Vec<char> {
    s.chars().collect()
}

fn text(cs: &[char]) -> String {
    cs.iter().collect()
}

#[test]
fn hex4_pads_to_four_digits() {
    assert_eq!(text(&hex4_chars(0x0a12, false)), "0a12");
    assert_eq!(text(&hex4_chars(0x0a12, true)), "0A12");
    assert_eq!(text(&hex4_chars(1, false)), "0001");
    assert_eq!(text(&hex4_chars(0xffff, false)), "ffff");
}

#[test]
fn decimal_renders_like_to_string() {
    for n in [0u32, 7, 10, 99, 100, 2578, u32::MAX] {
        assert_eq!(text(&decimal_chars(n)), n.to_string());
    }
}

#[test]
fn hex_parse_reads_back_hex4() {
    for v in [0u16, 1, 0x0a12, 0x8000, 0xffff] {
        assert_eq!(parse_u16_radix(&hex4_chars(v, false), 16), Some(v));
        assert_eq!(parse_u16_radix(&hex4_chars(v, true), 16), Some(v));
    }
}

#[test]
fn u16_parse_agrees_with_std() {
    for s in ["", "+", "-", "+1f", "-1", "10000", "ffff", "fFfF", "0x12", " 12", "0000000001", "g"] {
        assert_eq!(parse_u16_radix(&chars(s), 16), u16::from_str_radix(s, 16).ok(), "hex {s:?}");
    }
    for s in ["", "8765", "65535", "65536", "+80", "-0", "8a"] {
        assert_eq!(parse_u16_radix(&chars(s), 10), s.parse::<u16>().ok(), "dec {s:?}");
    }
}

#[test]
fn i32_parse_agrees_with_std() {
    for s in ["", "-", "+", "0", "-0", "42", "+42", "-42", "2147483647", "2147483648", "-2147483648",
        "-2147483649", "4294967295", "1a", "٣"] {
        assert_eq!(parse_i32(&chars(s)), s.parse::<i32>().ok(), "{s:?}");
    }
}

#[test]
fn trim_agrees_with_std() {
    for s in ["", "   ", "  a b  ", "\t\n{x}\r\n", "\u{3000}全角\u{3000}", "\u{85}x\u{a0}", "x"] {
        assert_eq!(text(&trim_chars(&chars(s))), s.trim(), "{s:?}");
    }
}

#[test]
fn find_gives_the_first_occurrence() {
    assert_eq!(find_chars(&chars("abcabc"), &chars("bc")), Some(1));
    assert_eq!(find_chars(&chars("abc"), &chars("x")), None);
    assert_eq!(find_chars(&chars("abc"), &chars("")), Some(0));
    assert_eq!(find_chars(&chars("ab"), &chars("abc")), None);
    assert!(contains_chars(&chars("xxOKyy"), &chars("OK")));
    assert!(!contains_chars(&chars("Ok"), &chars("OK")));
}

#[test]
fn string_and_chars_convert_both_ways() {
    let s = "ドライバ (0a12)";
    assert_eq!(string_from_chars(&str_chars(s)), s);
}
