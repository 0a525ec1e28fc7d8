use everyday_user::number::{digit_text, parse_window, push_decimal};

use everyday_user::text::{
    chars_of, cut, find_after, find_char, find_space, is_white_space, matches_at, same_chars,
    skip_spaces, trim_bounds, trimmed, window_contains, word_bounds,
};

fn chars(text: &str) -> Vec<char> {
    text.chars().collect()
}

fn window(s: &[char], bounds: (usize, usize)) -> String {
    s[bounds.0..bounds.1].iter().collect()
}

const SAMPLES: [&str; 14] = [
    "",
    " ",
    "a",
    "  hello  ",
    "\t\r\n x y \u{a0}\u{3000}",
    "\u{2003}wide\u{2003}",
    "no-space",
    "a:b:c",
    "::",
    ":lead",
    "trail:",
    "MemTotal:       16333852 kB",
    "one\u{85}two\u{1680}three",
    "\u{200b}zero width is no space\u{200b}",
];

#[test]
fn white_space_is_what_the_standard_library_calls_it() {
    let mut spaces = 0;
    for code in 0..=0x10ffffu32 {
        if let Some(c) = char::from_u32(code) {
            assert_eq!(is_white_space(c), c.is_whitespace(), "U+{:04X}", code);
            if is_white_space(c) {
                spaces += 1;
            }
        }
    }
    assert_eq!(spaces, 25);
}

#[test]
fn chars_of_lists_the_characters() {
    assert_eq!(chars_of(""), Vec::<char>::new());
    assert_eq!(chars_of("a\u{e9}\u{4e2d}\u{1f600}"), vec!['a', '\u{e9}', '\u{4e2d}', '\u{1f600}']);
}

#[test]
fn cut_counts_characters_not_bytes() {
    assert_eq!(cut("h\u{e9}llo w\u{f6}rld", 1, 4), "\u{e9}ll");
    assert_eq!(cut("abc", 0, 3), "abc");
    assert_eq!(cut("abc", 2, 2), "");
}

#[test]
fn same_chars_compares_contents() {
    assert!(same_chars(&chars("linux"), &chars("linux")));
    assert!(!same_chars(&chars("linux"), &chars("linus")));
    assert!(!same_chars(&chars("linux"), &chars("linu")));
    assert!(same_chars(&[], &[]));
}

#[test]
fn trim_bounds_agrees_with_str_trim() {
    for sample in SAMPLES {
        let s = chars(sample);
        let bounds = trim_bounds(&s, 0, s.len());
        assert_eq!(window(&s, bounds), sample.trim(), "{:?}", sample);
        assert_eq!(trimmed(sample), sample.trim(), "{:?}", sample);
    }
}

#[test]
fn trim_bounds_stays_inside_its_window() {
    let s = chars("xx  ab  yy");
    assert_eq!(trim_bounds(&s, 2, 8), (4, 6));
    assert_eq!(trim_bounds(&s, 2, 4), (4, 4));
    assert_eq!(trim_bounds(&s, 5, 5), (5, 5));
}

#[test]
fn trimmed_of_white_space_only_is_empty() {
    assert_eq!(trimmed(" \t\r\n"), "");
    assert_eq!(trimmed(""), "");
}

#[test]
fn find_char_finds_the_first_or_the_end() {
    let s = chars("ab:cd:ef");
    assert_eq!(find_char(&s, 0, s.len(), ':'), 2);
    assert_eq!(find_char(&s, 3, s.len(), ':'), 5);
    assert_eq!(find_char(&s, 6, s.len(), ':'), 8);
    assert_eq!(find_char(&s, 0, 2, ':'), 2);
}

#[test]
fn find_after_agrees_with_split_once() {
    let patterns = ["", ":", "::", "a", "MemTotal:", "l", "lo", " ", "kB"];
    for sample in SAMPLES {
        let s = chars(sample);
        for pattern in patterns {
            let p = chars(pattern);
            let got = find_after(&s, 0, s.len(), &p).map(|at| window(&s, (at, s.len())));
            let want = sample.split_once(pattern).map(|(_, rest)| rest.to_string());
            assert_eq!(got, want, "{:?} after {:?}", sample, pattern);
        }
    }
}

#[test]
fn find_after_looks_inside_the_window_only() {
    let s = chars("a:b:c");
    let colon = chars(":");
    assert_eq!(find_after(&s, 0, 5, &colon), Some(2));
    assert_eq!(find_after(&s, 2, 5, &colon), Some(4));
    assert_eq!(find_after(&s, 4, 5, &colon), None);
    assert_eq!(find_after(&s, 0, 1, &colon), None);
    assert_eq!(find_after(&s, 2, 3, &colon), None);
    assert_eq!(find_after(&s, 5, 5, &[]), Some(5));
}

#[test]
fn find_space_and_skip_spaces_walk_a_line() {
    let s = chars("  ab \tcd");
    assert_eq!(skip_spaces(&s, 0, s.len()), 2);
    assert_eq!(find_space(&s, 2, s.len()), 4);
    assert_eq!(skip_spaces(&s, 4, s.len()), 6);
    assert_eq!(find_space(&s, 6, s.len()), 8);
    assert_eq!(skip_spaces(&s, 8, s.len()), 8);
}

#[test]
fn word_bounds_agrees_with_split_whitespace() {
    for sample in SAMPLES {
        let s = chars(sample);
        let words: Vec<&str> = sample.split_whitespace().collect();
        for k in 0..words.len() + 2 {
            let got = word_bounds(&s, 0, s.len(), k).map(|b| window(&s, b));
            let want = words.get(k).map(|w| w.to_string());
            assert_eq!(got, want, "{:?} word {}", sample, k);
        }
    }
}

#[test]
fn word_bounds_tells_equal_words_apart() {
    let s = chars("ab ab  ab");
    assert_eq!(word_bounds(&s, 0, s.len(), 0), Some((0, 2)));
    assert_eq!(word_bounds(&s, 0, s.len(), 1), Some((3, 5)));
    assert_eq!(word_bounds(&s, 0, s.len(), 2), Some((7, 9)));
    assert_eq!(word_bounds(&s, 0, s.len(), 3), None);
    assert_eq!(word_bounds(&s, 1, 8, 0), Some((1, 2)));
    assert_eq!(word_bounds(&s, 1, 8, 2), Some((7, 8)));
    assert_eq!(word_bounds(&s, 5, 7, 0), None);
}

#[test]
fn trim_bounds_of_white_space_only_ends_at_the_end() {
    let s = chars("a   b");
    assert_eq!(trim_bounds(&s, 1, 4), (4, 4));
    assert_eq!(trim_bounds(&s, 0, 0), (0, 0));
}

#[test]
fn matches_at_and_window_contains_agree_with_str() {
    let patterns = ["", "a", "MemTotal:", "kB", "  ", ":", "hello", "x y"];
    for sample in SAMPLES {
        let s = chars(sample);
        for pattern in patterns {
            let p = chars(pattern);
            assert_eq!(
                window_contains(&s, 0, s.len(), &p),
                sample.contains(pattern),
                "{:?} contains {:?}",
                sample,
                pattern
            );
            assert_eq!(
                matches_at(&s, 0, s.len(), &p, 0),
                sample.starts_with(pattern),
                "{:?} starts with {:?}",
                sample,
                pattern
            );
        }
    }
}

#[test]
fn matches_at_looks_inside_the_window_only() {
    let s = chars("abcabc");
    let p = chars("bc");
    assert!(matches_at(&s, 0, 6, &p, 1));
    assert!(matches_at(&s, 3, 6, &p, 1));
    assert!(!matches_at(&s, 3, 5, &p, 1));
    assert!(!matches_at(&s, 0, 6, &p, 5));
    assert!(!matches_at(&s, 0, 6, &p, 7));
    assert!(window_contains(&s, 4, 6, &p));
    assert!(!window_contains(&s, 5, 6, &p));
}

#[test]
fn parse_window_agrees_with_str_parse() {
    let numerals = [
        "",
        "0",
        "7",
        "007",
        "+5",
        "+",
        "-5",
        "++5",
        "5+",
        " 5",
        "5 ",
        "12a",
        "16333852",
        "18446744073709551615",
        "18446744073709551616",
        "+18446744073709551615",
        "99999999999999999999",
        "000000000000000000000000000001",
        "\u{661}\u{662}",
        "1_000",
    ];
    for numeral in numerals {
        let s = chars(numeral);
        assert_eq!(parse_window(&s, 0, s.len()), numeral.parse::<u64>().ok(), "{:?}", numeral);
    }
}

#[test]
fn parse_window_reads_its_window_only() {
    let s = chars("ab123cd");
    assert_eq!(parse_window(&s, 2, 5), Some(123));
    assert_eq!(parse_window(&s, 2, 6), None);
    assert_eq!(parse_window(&s, 3, 3), None);
}

#[test]
fn digit_text_writes_each_digit() {
    for d in 0..10u8 {
        assert_eq!(digit_text(d), d.to_string());
    }
}

#[test]
fn push_decimal_appends_the_numeral() {
    let numbers = [0u128, 1, 9, 10, 99, 100, 12345, u64::MAX as u128, u128::MAX];
    for n in numbers {
        let mut out = String::from("n=");
        push_decimal(&mut out, n);
        assert_eq!(out, format!("n={}", n));
    }
}
