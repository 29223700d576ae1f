//! White space, ASCII case, decimals and UTF-16, against the standard library.
use herdr::text::{
    ascii_lower_chars, char_is_white_space, chars_of, ends_with, push_decimal, starts_with, trim,
};
use herdr::utf16::{decode_lossy, encode_utf16, encode_wide_nul};

fn every_char() -> impl Iterator<Item = char> {
    (0..=0x10ffffu32).filter_map(char::from_u32)
}

#[test]
fn white_space_is_that_of_the_standard_library() {
    for c in every_char() {
        assert_eq!(char_is_white_space(c), c.is_whitespace(), "{:?}", c);
    }
}

#[test]
fn trim_agrees_with_the_standard_library() {
    for s in [
        "", " ", "a", "  a", "a  ", " \t a b \r\n", "\u{3000}x\u{2028}", "\u{85}\u{a0}", "é ß ",
        "\u{200b}a\u{200b}", "\u{feff} a",
    ] {
        assert_eq!(trim(s), s.trim());
        assert_eq!(trim(trim(s)), trim(s));
    }
}

#[test]
fn ascii_case_agrees_with_the_standard_library() {
    for s in ["", "CMD.exe", "ÄÖ Z[@`{", "kelvin \u{212a}"] {
        let lowered: String = ascii_lower_chars(s).into_iter().collect();
        assert_eq!(lowered, s.to_ascii_lowercase());
    }
}

#[test]
fn prefixes_and_suffixes_agree_with_the_standard_library() {
    let s = "C:\\Windows\\cmd.exe";
    let cs = chars_of(s);
    for part in ["", "C:", "C:\\Windows\\cmd.exe", "C:\\Windows\\cmd.exe!", "cmd.exe", "x"] {
        assert_eq!(starts_with(&cs, part), s.starts_with(part));
        assert_eq!(ends_with(&cs, part), s.ends_with(part));
    }
}

#[test]
fn decimals_agree_with_the_standard_library() {
    for n in [0, 7, 10, 99, 100, 1_000_003, 4_294_967_295, u64::MAX] {
        let mut out = String::from("n");
        push_decimal(&mut out, n);
        assert_eq!(out, format!("n{}", n));
    }
}

#[test]
fn utf16_agrees_with_the_standard_library() {
    let all: String = every_char().collect();
    let units: Vec<u16> = all.encode_utf16().collect();
    assert!(encode_utf16(&all) == units);
    assert!(decode_lossy(&units) == all);
    let mut with_nul: Vec<u16> = "aé𝄞".encode_utf16().collect();
    with_nul.push(0);
    assert_eq!(encode_wide_nul("aé𝄞"), with_nul);
    assert_eq!(with_nul, vec![0x61, 0xe9, 0xd834, 0xdd1e, 0]);
}

#[test]
fn broken_utf16_is_replaced_as_by_the_standard_library() {
    for units in [
        vec![0xd800],
        vec![0xdc00],
        vec![0xd800, 0x61],
        vec![0xdc00, 0xd800],
        vec![0xd800, 0xd800, 0xdc00],
        vec![0x61, 0xdbff, 0xdfff, 0xdfff, 0x62],
        vec![],
    ] {
        assert_eq!(decode_lossy(&units), String::from_utf16_lossy(&units));
    }
    assert_eq!(decode_lossy(&[0xd800, 0x61]), "\u{fffd}a");
}

#[test]
fn different_texts_have_different_utf16() {
    assert_ne!(encode_utf16("ab"), encode_utf16("a\u{62}\u{301}"));
    assert_eq!(decode_lossy(&encode_utf16("𝄞ü\u{0}x")), "𝄞ü\u{0}x");
}
