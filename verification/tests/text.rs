//! Text and numbers.

use cosmic_hdr::number::{hex_byte_text, i32_text, parse_i32, parse_u32, u32_text};
use cosmic_hdr::text::{
    chars_of, contains, contains_lowercased, find_char, is_white_space, replace_char, same_text,
    split, split_once, starts_with, trim,
};

const SAMPLES: [&str; 12] = [
    "",
    " ",
    "a",
    "  a b  ",
    "\t\r\nkey\u{a0}\u{3000}",
    "é=ü=",
    "=",
    "==",
    "a=b\nc=d\n",
    "\n\n",
    "\u{feff}x\u{200b}",
    "card1-eDP-1",
];

#[test]
fn white_space_is_what_std_takes_for_it() {
    for code in 0..=0x10_ffffu32 {
        if let Some(c) = char::from_u32(code) {
            assert_eq!(is_white_space(c), c.is_whitespace(), "{code:x}");
        }
    }
}

#[test]
fn trimming_agrees_with_std() {
    for s in SAMPLES {
        assert_eq!(trim(s), s.trim());
    }
    assert_eq!(trim(" \u{2028}x y\u{85}\n"), "x y");
}

#[test]
fn splitting_agrees_with_std() {
    for s in SAMPLES {
        for sep in ['\n', '=', '-', 'é'] {
            assert_eq!(split(s, sep), s.split(sep).collect::<Vec<&str>>());
            assert_eq!(split_once(s, sep), s.split_once(sep));
        }
    }
    assert_eq!(split("a=b=c", '='), vec!["a", "b", "c"]);
    assert_eq!(split_once("a=b=c", '='), Some(("a", "b=c")));
    assert_eq!(split_once("abc", '='), None);
}

#[test]
fn characters_are_found_by_their_count() {
    assert_eq!(find_char("ééx-y-z", '-'), Some(3));
    assert_eq!(find_char("ééxyz", '-'), None);
    assert_eq!(find_char("", '-'), None);
    assert_eq!(chars_of("aé✓"), vec!['a', 'é', '✓']);
}

#[test]
fn searching_agrees_with_std() {
    for s in SAMPLES {
        for p in SAMPLES {
            assert_eq!(contains(s, p), s.contains(p), "{s:?} {p:?}");
            assert_eq!(starts_with(s, p), s.starts_with(p), "{s:?} {p:?}");
            assert_eq!(same_text(s, p), s == p, "{s:?} {p:?}");
        }
    }
    assert!(contains("aaab", "aab"));
    assert!(!contains("aaac", "aab"));
}

#[test]
fn only_ascii_capitals_are_lowered() {
    assert!(contains_lowercased("QD-OLED Panel", "oled"));
    assert!(contains_lowercased("oLeD", "oled"));
    assert!(!contains_lowercased("OLE D", "oled"));
    assert!(!contains_lowercased("ÖLED", "öled"));
    // The text is lowered, what is looked for is not.
    assert!(!contains_lowercased("OLED", "OLED"));
}

#[test]
fn characters_are_replaced_everywhere() {
    assert_eq!(replace_char("a-b--c", '-', " "), "a b  c");
    assert_eq!(replace_char("-é-", '-', "✓"), "✓é✓");
    assert_eq!(replace_char("abc", '-', " "), "abc");
    assert_eq!(replace_char("", '-', " "), "");
}

#[test]
fn numbers_are_read_as_std_reads_them() {
    let samples = [
        "", "+", "-", "0", "-0", "+0", "7", "+7", "-7", "007", "4294967295", "4294967296",
        "2147483647", "2147483648", "-2147483648", "-2147483649", "+4294967295", "++1", "--1",
        "1 ", " 1", "1_000", "0x10", "12a", "99999999999999999999", "1.5", "١",
        "000000000000000000000042", "+-1",
    ];
    for s in samples {
        assert_eq!(parse_u32(s), s.parse::<u32>().ok(), "{s:?}");
        assert_eq!(parse_i32(s), s.parse::<i32>().ok(), "{s:?}");
    }
}

#[test]
fn numbers_are_written_as_std_writes_them() {
    for n in [0u32, 1, 9, 10, 99, 100, 203, 4_294_967_294, u32::MAX] {
        assert_eq!(u32_text(n), n.to_string());
    }
    for n in [0i32, 1, -1, 10, -10, 1023, -1024, i32::MAX, i32::MIN] {
        assert_eq!(i32_text(n), n.to_string());
    }
    for b in 0..=255u8 {
        assert_eq!(hex_byte_text(b), format!("{b:#04x}"));
    }
    assert_eq!(hex_byte_text(0x0f), "0x0f");
    assert_eq!(hex_byte_text(0xa0), "0xa0");
}

#[test]
fn written_numbers_read_back() {
    for n in [0u32, 5, 60, 800, 65_536, u32::MAX] {
        assert_eq!(parse_u32(&u32_text(n)), Some(n));
    }
    for n in [0i32, 512, -1024, i32::MAX, i32::MIN] {
        assert_eq!(parse_i32(&i32_text(n)), Some(n));
    }
}
