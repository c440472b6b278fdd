use lcu::text::{
    chars_of, contains_text, decimal_string, field_bounds, is_space, parse_unsigned, trim_bounds,
};

fn text_of(chars: &[char], bounds: (usize, usize)) -> String {
    chars[bounds.0..bounds.1].iter().collect()
}

#[test]
fn chars_of_gives_every_character_in_order() {
    assert_eq!(chars_of("a:b"), vec!['a', ':', 'b']);
    assert_eq!(chars_of(""), Vec::<char>::new());
    assert_eq!(chars_of("pä\u{3000}ß"), vec!['p', 'ä', '\u{3000}', 'ß']);
}

#[test]
fn contains_text_agrees_with_std() {
    let cases = [
        ("/lol-champ-select/v1/session", "/lol-champ-select/"),
        ("/lol-summoner/v1/x", "/lol-champ-select/"),
        ("", "/lol-champ-select/"),
        ("", ""),
        ("abc", ""),
        ("abc", "abc"),
        ("abc", "abcd"),
        ("aab", "ab"),
        ("xx/lol-champ-select", "/lol-champ-select/"),
        ("prefix/lol-champ-select/", "/lol-champ-select/"),
        ("ääb", "äb"),
    ];
    for (hay, needle) in cases {
        assert_eq!(contains_text(hay, needle), hay.contains(needle), "{hay:?} {needle:?}");
    }
}

#[test]
fn is_space_agrees_with_std_on_every_character() {
    let mut code: u32 = 0;
    while code <= 0x10FFFF {
        if let Some(c) = char::from_u32(code) {
            assert_eq!(is_space(c), c.is_whitespace(), "U+{code:04X}");
        }
        code += 1;
    }
}

#[test]
fn trim_bounds_agrees_with_std() {
    let cases = [
        "",
        " ",
        "\r\n",
        "abc",
        "  abc",
        "abc  ",
        " \t abc def \r\n",
        "\u{3000}x\u{2028}",
        "\u{85}\u{a0}x y\u{1680}",
        "a",
        " a ",
    ];
    for case in cases {
        let chars = chars_of(case);
        let bounds = trim_bounds(&chars);
        assert_eq!(text_of(&chars, bounds), case.trim(), "{case:?}");
    }
}

#[test]
fn field_bounds_agrees_with_std_split() {
    let cases = ["", ":", "a", "a:b", "a:", ":a", "a::b", "LeagueClient:1234:5678:pass:https", ":::"];
    for case in cases {
        let chars = chars_of(case);
        let bounds = field_bounds(&chars, 0, chars.len(), ':');
        let found: Vec<String> = bounds.iter().map(|b| text_of(&chars, *b)).collect();
        let expected: Vec<String> = case.split(':').map(|f| f.to_string()).collect();
        assert_eq!(found, expected, "{case:?}");
    }
}

#[test]
fn field_bounds_stays_inside_the_range() {
    let chars = chars_of("xx:a:b:yy");
    let bounds = field_bounds(&chars, 3, 6, ':');
    assert_eq!(bounds, vec![(3, 4), (5, 6)]);
    let empty = field_bounds(&chars, 4, 4, ':');
    assert_eq!(empty, vec![(4, 4)]);
    assert_eq!(field_bounds(&chars, 5, 4, ':'), vec![]);
    assert_eq!(field_bounds(&chars, 0, 10, ':'), vec![]);
}

#[test]
fn parse_unsigned_agrees_with_std_for_32_bits() {
    let cases = [
        "0", "7", "42", "007", "4294967295", "4294967296", "99999999999999999999", "", "+", "-",
        "+5", "++5", "-5", "+0", "5+", " 5", "5 ", "1_000", "0x10", "١٢٣", "12a", "a12",
        "00000000000000000000000000001",
    ];
    for case in cases {
        let chars = chars_of(case);
        let found = parse_unsigned(&chars, 0, chars.len(), u32::MAX);
        assert_eq!(found, case.parse::<u32>().ok(), "{case:?}");
    }
}

#[test]
fn parse_unsigned_agrees_with_std_for_16_bits() {
    let cases = ["0", "65535", "65536", "+65535", "+65536", "100000", "5678", "", "x"];
    for case in cases {
        let chars = chars_of(case);
        let found = parse_unsigned(&chars, 0, chars.len(), 65535);
        assert_eq!(found, case.parse::<u16>().ok().map(u32::from), "{case:?}");
    }
}

#[test]
fn parse_unsigned_reads_only_the_range() {
    let chars = chars_of("ab123cd");
    assert_eq!(parse_unsigned(&chars, 2, 5, u32::MAX), Some(123));
    assert_eq!(parse_unsigned(&chars, 2, 6, u32::MAX), None);
    assert_eq!(parse_unsigned(&chars, 3, 3, u32::MAX), None);
    assert_eq!(parse_unsigned(&chars, 5, 2, u32::MAX), None);
    assert_eq!(parse_unsigned(&chars, 2, 8, u32::MAX), None);
}

#[test]
fn decimal_string_agrees_with_std() {
    for n in [0u64, 1, 9, 10, 11, 99, 100, 5678, 65535, 4294967295, u64::MAX] {
        assert_eq!(decimal_string(n), n.to_string());
    }
}
