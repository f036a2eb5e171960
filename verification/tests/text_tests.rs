use lib::text::{
    chars_of, contains_chars, encode_utf16, field_after_last_0x, parse_hex, push_decimal,
    split_lines, trimmed, white_space,
};

fn cs(s: &str) -> Vec<char> {
    s.chars().collect()
}

#[test]
fn chars_of_keeps_every_char() {
    assert_eq!(chars_of("a\u{e9}\u{1F4A4}"), vec!['a', '\u{e9}', '\u{1F4A4}']);
    assert_eq!(chars_of(""), Vec::<char>::new());
}

#[test]
fn encode_utf16_matches_std() {
    for s in ["", "abc", "Awake - preventing sleep", "\u{e9}t\u{e9}", "\u{2615}\u{1F4A4}x"] {
        let expected: Vec<u16> = s.encode_utf16().collect();
        assert_eq!(encode_utf16(s), expected);
    }
    assert_eq!(encode_utf16("\u{1F4A4}"), vec![0xD83D, 0xDCA4]);
}

#[test]
fn split_lines_matches_std() {
    for s in ["", "a", "a\n", "a\nb", "a\r\nb\r\n", "\n\n", "x\r", "one\r\ntwo\nthree", "\r\n"] {
        let expected: Vec<Vec<char>> = s.lines().map(|l| l.chars().collect()).collect();
        assert_eq!(split_lines(s), expected, "input {:?}", s);
    }
}

#[test]
fn contains_finds_substrings() {
    assert!(contains_chars(&cs("hello world"), &cs("o w")));
    assert!(contains_chars(&cs("abc"), &cs("")));
    assert!(contains_chars(&cs("abc"), &cs("abc")));
    assert!(!contains_chars(&cs("abc"), &cs("abcd")));
    assert!(!contains_chars(&cs("abc"), &cs("cb")));
    assert!(!contains_chars(&cs(""), &cs("a")));
}

#[test]
fn trim_matches_std() {
    for s in ["", "  ", " a ", "\t0x1\r", "\u{3000}x\u{a0}", "a b", "\u{2028}\u{200a}q\u{85}"] {
        let expected: Vec<char> = s.trim().chars().collect();
        assert_eq!(trimmed(&cs(s)), expected, "input {:?}", s);
    }
    assert!(white_space('\u{205f}'));
    assert!(!white_space('\u{200b}'));
    assert!(!white_space('x'));
}

#[test]
fn parse_hex_matches_from_str_radix() {
    for s in [
        "", "+", "-", "0", "1", "ff", "FF", "+10", "-1", "00000003", "ffffffff", "100000000",
        "0000000000000000001", "g", "1 2", "DeadBeef", "++1",
    ] {
        let expected = u32::from_str_radix(s, 16).ok();
        assert_eq!(parse_hex(&cs(s)), expected, "input {:?}", s);
    }
}

#[test]
fn field_after_last_0x_takes_the_last_piece() {
    for s in ["", "abc", "0x", "a0x5", "0x1 0x2", "x0", "0x0x", "Index: 0x00000003"] {
        let expected: Vec<char> = s.rsplit("0x").next().unwrap().chars().collect();
        assert_eq!(field_after_last_0x(&cs(s)), expected, "input {:?}", s);
    }
}

#[test]
fn push_decimal_writes_numerals() {
    for n in [0u32, 7, 10, 42, 1000, 4294967295] {
        let mut out = String::from("n=");
        push_decimal(&mut out, n);
        assert_eq!(out, format!("n={}", n));
    }
}
