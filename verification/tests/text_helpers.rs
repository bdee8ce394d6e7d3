use atlas::text::{
    chars_equal, chars_of, contains, decimal_string, find_from, matches_at, owned, parse_i64,
    push_decimal_i64, push_decimal_u64, spells, split_lines, string_of, trim,
    trim_bounds, trimmed_len,
};
use atlas::text::blank;

fn chars(text: &str) -> Vec<char> {
    text.chars().collect()
}

#[test]
fn characters_round_trip() {
    assert_eq!(chars_of("héllo ✓"), chars("héllo ✓"));
    assert_eq!(chars_of(""), Vec::<char>::new());
    let text = chars("héllo ✓");
    assert_eq!(string_of(&text, 0, text.len()), "héllo ✓");
    assert_eq!(string_of(&text, 1, 3), "él");
    assert_eq!(string_of(&text, 4, 4), "");
    assert_eq!(owned("abc"), "abc");
}

#[test]
fn decimal_digits() {
    assert_eq!(decimal_string(0), "0");
    assert_eq!(decimal_string(7), "7");
    assert_eq!(decimal_string(10), "10");
    assert_eq!(decimal_string(1_234_567_890), "1234567890");
    assert_eq!(decimal_string(u64::MAX), "18446744073709551615");
    let mut out = String::from("n=");
    push_decimal_u64(&mut out, 405);
    assert_eq!(out, "n=405");
    push_decimal_i64(&mut out, -17);
    assert_eq!(out, "n=405-17");
    let mut out = String::new();
    push_decimal_i64(&mut out, i64::MIN);
    assert_eq!(out, "-9223372036854775808");
    let mut out = String::new();
    push_decimal_i64(&mut out, i64::MAX);
    assert_eq!(out, "9223372036854775807");
    let mut out = String::new();
    push_decimal_i64(&mut out, 0);
    assert_eq!(out, "0");
}

#[test]
fn text_equality() {
    assert!(spells(&chars(""), ""));
    assert!(spells(&chars("abc"), "abc"));
    assert!(!spells(&chars("abc"), "abd"));
    assert!(!spells(&chars("abc"), "ab"));
    assert!(!spells(&chars("ab"), "abc"));
    assert!(spells(&chars("queued"), "queued"));
    assert!(!spells(&chars("Queued"), "queued"));
    assert!(chars_equal(&chars("x"), &chars("x")));
    assert!(!chars_equal(&chars("x"), &chars("y")));
}

#[test]
fn substring_search() {
    let hay = chars("abcabc");
    assert!(matches_at(&hay, &chars("abc"), 0));
    assert!(matches_at(&hay, &chars("abc"), 3));
    assert!(!matches_at(&hay, &chars("abc"), 1));
    assert!(!matches_at(&hay, &chars("abc"), 4));
    assert!(!matches_at(&hay, &chars("abc"), usize::MAX));
    assert!(matches_at(&hay, &chars(""), 6));
    assert!(!matches_at(&hay, &chars(""), 7));
    assert_eq!(find_from(&hay, &chars("bc"), 0), Some(1));
    assert_eq!(find_from(&hay, &chars("bc"), 2), Some(4));
    assert_eq!(find_from(&hay, &chars("bc"), 5), None);
    assert_eq!(find_from(&hay, &chars("abcabcd"), 0), None);
    assert_eq!(find_from(&hay, &chars(""), 0), Some(0));
    assert_eq!(find_from(&hay, &chars(""), 6), Some(6));
    assert_eq!(find_from(&hay, &chars(""), 7), None);
    assert_eq!(find_from(&chars(""), &chars(""), 0), Some(0));
    assert!(contains(&hay, &chars("cab")));
    assert!(contains(&hay, &chars("")));
    assert!(!contains(&hay, &chars("cb")));
    assert!(!contains(&chars(""), &chars("a")));
}

#[test]
fn trailing_runs_are_trimmed() {
    assert_eq!(trimmed_len(&chars("a/b//"), '/'), 3);
    assert_eq!(trimmed_len(&chars("a/b"), '/'), 3);
    assert_eq!(trimmed_len(&chars("///"), '/'), 0);
    assert_eq!(trimmed_len(&chars(""), '/'), 0);
}

#[test]
fn integers_are_read_as_the_standard_library_reads_them() {
    let samples = [
        "0",
        "7",
        "-7",
        "+7",
        "007",
        "-0",
        "+0",
        "",
        "+",
        "-",
        "--1",
        "+-1",
        "1-",
        "12a",
        "a12",
        " 12",
        "12 ",
        "1_000",
        "1.5",
        "٣",
        "９",
        "9223372036854775807",
        "9223372036854775808",
        "-9223372036854775808",
        "-9223372036854775809",
        "+9223372036854775807",
        "18446744073709551615",
        "18446744073709551616",
        "340282366920938463463374607431768211456",
        "-340282366920938463463374607431768211456",
        "99999999999999999999999999999999999999999999999999",
        "00000000000000000000000000000000000000000000000042",
        "-00000000000000000000000000000000009223372036854775808",
        "1700000000",
    ];
    for sample in samples {
        assert_eq!(parse_i64(sample), sample.parse::<i64>().ok(), "reading {:?}", sample);
    }
    assert_eq!(parse_i64("1700000000"), Some(1_700_000_000));
    assert_eq!(parse_i64("-12"), Some(-12));
    assert_eq!(parse_i64("twelve"), None);
}

#[test]
fn lines_are_split_as_the_standard_library_splits_them() {
    let samples = [
        "",
        "one",
        "one\n",
        "one\ntwo",
        "one\ntwo\n",
        "one\r\ntwo\r\n",
        "one\r\ntwo",
        "\n",
        "\n\n",
        "\r\n",
        "\r",
        "one\r",
        "one\rtwo",
        "one\r\r\n",
        "one\n\rtwo",
        "\r\n\r\n",
        "a\n\nb",
        "a\n\n",
        "\na",
        "é✓\r\n█\n",
        "##[group]Run actions/checkout@v4\nError: boom\n",
    ];
    for sample in samples {
        let expected: Vec<String> = sample.lines().map(String::from).collect();
        assert_eq!(split_lines(sample), expected, "splitting {:?}", sample);
    }
    assert_eq!(split_lines("a\nb\r\nc"), vec!["a", "b", "c"]);
    assert_eq!(split_lines("a\r"), vec!["a\r"]);
    assert!(split_lines("").is_empty());
}

#[test]
fn white_space_is_what_the_standard_library_calls_white_space() {
    for code in 0..=0x10ffffu32 {
        if let Some(c) = char::from_u32(code) {
            assert_eq!(blank(c), c.is_whitespace(), "character {:#x}", code);
        }
    }
}

#[test]
fn trimming_as_the_standard_library_trims() {
    let samples = [
        "",
        " ",
        "  \t\n",
        "a",
        " a",
        "a ",
        "  a b  ",
        "\u{a0}x\u{3000}",
        "\r\nurl\r\n",
        "x\u{200b}",
        "\u{2003}é \u{85}",
    ];
    for sample in samples {
        assert_eq!(trim(sample), sample.trim(), "trimming {:?}", sample);
    }
    assert_eq!(trim("  a b  "), "a b");
    assert_eq!(trim_bounds(&chars("  a b  ")), (2, 5));
    assert_eq!(trim_bounds(&chars("   ")), (3, 3));
    assert_eq!(trim_bounds(&chars("")), (0, 0));
}
