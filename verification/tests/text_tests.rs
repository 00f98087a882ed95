use nestri_server::text::{
    chars_of, contains_text, eq_ignore_ascii_case, is_whitespace, parse_hex_u16, parse_u32,
    same_text, u32_to_string,
};

const SAMPLES: [&str; 24] = [
    "", " ", "a", "A", "abc", "ABC", "aBc", "abcd", "/dev/dri/card0", "/DEV/DRI/CARD0",
    "straße", "STRASSE", "Ünïcode", "ünïcode", "k", "\u{212a}", "0", "+0", "+", "-1", "00012",
    "4294967295", "4294967296", "ffff",
];

#[test]
fn white_space_is_the_standard_set() {
    for code in 0..=0x10ffffu32 {
        if let Some(c) = char::from_u32(code) {
            assert_eq!(is_whitespace(c), c.is_whitespace(), "U+{:04X}", code);
        }
    }
}

#[test]
fn comparison_without_ascii_case() {
    for a in SAMPLES {
        for b in SAMPLES {
            assert_eq!(eq_ignore_ascii_case(a, b), a.eq_ignore_ascii_case(b), "{:?} {:?}", a, b);
            assert_eq!(same_text(a, b), a == b);
        }
    }
    assert!(eq_ignore_ascii_case("/dev/dri/renderD128", "/DEV/DRI/RENDERd128"));
    assert!(!eq_ignore_ascii_case("k", "\u{212a}"));
    assert!(!eq_ignore_ascii_case("@", "`"));
    assert!(!eq_ignore_ascii_case("[", "{"));
}

#[test]
fn occurrence_of_a_text() {
    for hay in SAMPLES {
        for needle in SAMPLES {
            assert_eq!(contains_text(hay, needle), hay.contains(needle), "{:?} {:?}", hay, needle);
        }
    }
    assert!(contains_text("geforce rtx 4090", "rtx"));
    assert!(contains_text("geforce rtx 4090", "4090"));
    assert!(contains_text("geforce rtx 4090", ""));
    assert!(!contains_text("geforce rtx 4090", "4090 "));
    assert!(!contains_text("", "a"));
}

#[test]
fn decimal_numbers() {
    for n in [0u32, 1, 9, 10, 11, 99, 100, 101, 65535, 65536, 1000000, 4294967294, 4294967295] {
        assert_eq!(u32_to_string(n), n.to_string());
        assert_eq!(parse_u32(&n.to_string()), Some(n));
    }
    for text in SAMPLES {
        assert_eq!(parse_u32(text), text.parse::<u32>().ok(), "{:?}", text);
    }
    for text in ["+12", "++12", "12+", " 12", "12 ", "1_000", "０１", "٣", "0x10", "99999999999999999999"] {
        assert_eq!(parse_u32(text), text.parse::<u32>().ok(), "{:?}", text);
    }
}

#[test]
fn hexadecimal_numbers() {
    for n in [0u16, 1, 9, 10, 15, 16, 255, 256, 0x8086, 0x10de, 0x1002, 0xfffe, 0xffff] {
        assert_eq!(parse_hex_u16(&format!("{:x}", n)), Some(n));
        assert_eq!(parse_hex_u16(&format!("{:04X}", n)), Some(n));
    }
    for text in SAMPLES {
        assert_eq!(parse_hex_u16(text), u16::from_str_radix(text, 16).ok(), "{:?}", text);
    }
    for text in ["+ff", "-ff", "10000", "0000ffff", "fffff", "g", "0x12", "ff ", "ａ", "+"] {
        assert_eq!(parse_hex_u16(text), u16::from_str_radix(text, 16).ok(), "{:?}", text);
    }
}

#[test]
fn characters_of_a_text() {
    for text in SAMPLES {
        assert_eq!(chars_of(text), text.chars().collect::<Vec<char>>());
    }
}
