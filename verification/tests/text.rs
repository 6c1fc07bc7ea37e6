use xclang::text::{
    append_chars, chars_of, contains_chars, find, find_whitespace, matches_at, parse_decimal,
    push_decimal, replace, rfind, split_lines, split_words, string_of, trimmed,
    whitespace,
};

fn chars(s: &str) -> Vec<char> {
    s.chars().collect()
}

fn text(v: &[char]) -> String {
    v.iter().collect()
}

fn many(v: &[&str]) -> Vec<Vec<char>> {
    v.iter().map(|s| chars(s)).collect()
}

#[test]
fn string_and_characters_convert_both_ways() {
    assert_eq!(chars_of("a-c é\n"), vec!['a', '-', 'c', ' ', 'é', '\n']);
    assert_eq!(chars_of(""), Vec::<char>::new());
    assert_eq!(string_of(&['x', 'é', '\t', 'z']), "xé\tz");
    assert_eq!(string_of(&[]), "");
    assert_eq!(string_of(&chars_of("/foo/TestClass.m")), "/foo/TestClass.m");
}

#[test]
fn white_space_is_what_unicode_says() {
    for code in 0u32..=0x10FFFF {
        if let Some(c) = char::from_u32(code) {
            assert_eq!(whitespace(c), c.is_whitespace(), "U+{:04X}", code);
        }
    }
    assert!(whitespace(' '));
    assert!(whitespace('\u{3000}'));
    assert!(!whitespace('\u{FEFF}'));
    assert!(!whitespace('\u{200B}'));
}

#[test]
fn pattern_is_matched_in_place() {
    let s = chars("clang -c a.m");
    assert!(matches_at(&s, &chars("-c "), 6));
    assert!(!matches_at(&s, &chars("-c "), 5));
    assert!(matches_at(&s, &chars(""), 12));
    assert!(!matches_at(&s, &chars(""), 13));
    assert!(!matches_at(&s, &chars("a.mm"), 9));
    assert!(matches_at(&s, &chars("a.m"), 9));
}

#[test]
fn first_and_last_occurrence_are_found() {
    let s = chars("ab -o cd -o ef");
    assert_eq!(find(&s, &chars(" -o "), 0), Some(2));
    assert_eq!(find(&s, &chars(" -o "), 3), Some(8));
    assert_eq!(find(&s, &chars(" -o "), 9), None);
    assert_eq!(find(&s, &chars(" -o "), 99), None);
    assert_eq!(rfind(&s, &chars(" -o "), 0), Some(8));
    assert_eq!(rfind(&s, &chars(" -o "), 8), Some(8));
    assert_eq!(rfind(&s, &chars(" -o "), 9), None);
    assert_eq!(rfind(&s, &chars("ab"), 0), Some(0));
    assert_eq!(rfind(&s, &chars("zz"), 0), None);
    assert_eq!(find(&s, &chars(""), 14), Some(14));
    assert_eq!(find_whitespace(&s, 0), Some(2));
    assert_eq!(find_whitespace(&s, 9), Some(11));
    assert_eq!(find_whitespace(&s, 12), None);
}

#[test]
fn containment_is_exact_in_case() {
    assert!(contains_chars(&chars("prepareToTest\tvoid"), &chars("pre")));
    assert!(!contains_chars(&chars("prepareToTest\tvoid"), &chars("Pre")));
    assert!(contains_chars(&chars("prepareToTest\tvoid"), &chars("")));
    assert!(contains_chars(&chars(""), &chars("")));
    assert!(!contains_chars(&chars("ab"), &chars("abc")));
}

#[test]
fn characters_are_added_at_the_end() {
    let mut out = chars("ab");
    append_chars(&mut out, &chars("cde"));
    append_chars(&mut out, &[]);
    assert_eq!(text(&out), "abcde");
}

#[test]
fn trimming_cuts_white_space_at_both_ends_only() {
    for s in ["", " ", " \t\r\n", "a", "  a b  ", "\u{3000}x y\u{a0}", "x\n", "\tx", "a  b"] {
        assert_eq!(text(&trimmed(&chars(s))), s.trim(), "{:?}", s);
    }
}

#[test]
fn replacing_takes_occurrences_from_the_left() {
    let cases = [
        ("", "a", "b"),
        ("aaa", "aa", "b"),
        ("abcabc", "bc", ""),
        ("abcabc", "abc", "abcabc"),
        ("-include /c/P.pch x /c/P.pch", "/c/P.pch", "/h/P.pch"),
        ("abab", "ba", "x"),
        ("no match", "zz", "y"),
        ("tail ab", "ab", "cd"),
    ];
    for (s, from, to) in cases {
        assert_eq!(
            text(&replace(&chars(s), &chars(from), &chars(to))),
            s.replace(from, to),
            "{:?} {:?} {:?}",
            s,
            from,
            to
        );
    }
    assert_eq!(text(&replace(&chars("abc"), &chars(""), &chars("x"))), "abc");
}

#[test]
fn lines_are_split_at_line_feeds() {
    assert_eq!(split_lines(&chars("")), many(&[]));
    assert_eq!(split_lines(&chars("a")), many(&["a"]));
    assert_eq!(split_lines(&chars("a\n")), many(&["a"]));
    assert_eq!(split_lines(&chars("\n")), many(&[""]));
    assert_eq!(split_lines(&chars("a\n\nb")), many(&["a", "", "b"]));
    assert_eq!(split_lines(&chars("a\nb\n\n")), many(&["a", "b", ""]));
    assert_eq!(split_lines(&chars("a\r\nb")), many(&["a\r", "b"]));
}

#[test]
fn words_are_split_at_white_space() {
    for s in ["", "  ", "a", " a  b\tc\n", "clang -c /src/A.m -o /out/A.o", "x\u{a0}y"] {
        let expected: Vec<Vec<char>> = s.split_whitespace().map(|w| chars(w)).collect();
        assert_eq!(split_words(&chars(s)), expected, "{:?}", s);
    }
}

#[test]
fn numbers_are_written_in_decimal() {
    for n in [0usize, 1, 9, 10, 11, 99, 100, 101, 4096, 1234567890, usize::MAX] {
        let mut out = chars("at ");
        push_decimal(&mut out, n);
        assert_eq!(text(&out), format!("at {}", n));
    }
}

#[test]
fn numbers_are_read_in_decimal() {
    assert_eq!(parse_decimal(&chars("0")), Some(0));
    assert_eq!(parse_decimal(&chars("007")), Some(7));
    assert_eq!(parse_decimal(&chars("16")), Some(16));
    assert_eq!(parse_decimal(&chars(&usize::MAX.to_string())), Some(usize::MAX));
    assert_eq!(parse_decimal(&chars(&format!("{}0", usize::MAX))), None);
    assert_eq!(parse_decimal(&chars("18446744073709551616")), None);
    assert_eq!(parse_decimal(&chars("")), None);
    assert_eq!(parse_decimal(&chars("+1")), None);
    assert_eq!(parse_decimal(&chars("-1")), None);
    assert_eq!(parse_decimal(&chars("1 ")), None);
    assert_eq!(parse_decimal(&chars("1a")), None);
    assert_eq!(parse_decimal(&chars("٣")), None);
}

#[test]
fn number_written_reads_back() {
    for n in [0usize, 5, 10, 909, 65535, usize::MAX] {
        let mut out = Vec::new();
        push_decimal(&mut out, n);
        assert_eq!(parse_decimal(&out), Some(n));
    }
}
