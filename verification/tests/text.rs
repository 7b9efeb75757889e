use stream_supervisor::text::{
    chars_of, contains_in, digit_of, find_in, is_space, lines_of, parse_u16, parse_u32,
    read_leading_number, starts_at, string_of, strip_quotes_slice, take_after, take_before,
    take_second, trim_slice, trim_start_slice,
};

fn c(s: &str) -> Vec<char> {
    s.chars().collect()
}

#[test]
fn chars_round_trip() {
    assert_eq!(chars_of("héllo ✓"), c("héllo ✓"));
    assert_eq!(chars_of(""), Vec::<char>::new());
    assert_eq!(string_of(&c("héllo ✓")), "héllo ✓");
    assert_eq!(string_of(&[]), "");
}

#[test]
fn find_gives_the_first_match() {
    for (hay, needle) in [
        ("abcabc", "bc"), ("abcabc", "abc"), ("abcabc", "c"), ("abc", "abcd"), ("abc", ""),
        ("", ""), ("", "a"), ("aaa", "aa"), ("abab", "bab"), ("xyz", "z"), ("é,é", ","),
    ] {
        let expected = hay.find(needle).map(|b| hay[..b].chars().count());
        assert_eq!(find_in(&c(hay), &c(needle)), expected, "{:?} in {:?}", needle, hay);
        assert_eq!(contains_in(&c(hay), &c(needle)), hay.contains(needle));
    }
    assert!(starts_at(&c("abc"), &c("bc"), 1));
    assert!(!starts_at(&c("abc"), &c("bc"), 2));
    assert!(!starts_at(&c("abc"), &c("bc"), 7));
    assert!(starts_at(&c("abc"), &c(""), 3));
}

#[test]
fn whitespace_is_unicode_white_space() {
    for code in 0u32..0x3100 {
        if let Some(ch) = char::from_u32(code) {
            assert_eq!(is_space(ch), ch.is_whitespace(), "U+{:04X}", code);
        }
    }
    assert!(!is_space('\u{FEFF}'));
}

#[test]
fn trim_matches_std() {
    for s in ["", " ", "  a  ", "\t\r\n x y \u{3000}", "a", " a", "a ", "\u{A0}b\u{2003}", "   "] {
        assert_eq!(trim_slice(&c(s)).to_vec(), c(s.trim()), "{:?}", s);
        assert_eq!(trim_start_slice(&c(s)).to_vec(), c(s.trim_start()), "{:?}", s);
    }
}

#[test]
fn quotes_are_stripped_from_both_ends() {
    for s in ["", "\"", "\"\"", "\"a\"", "\"\"a\"b\"\"\"", "a\"", " \"a\""] {
        assert_eq!(strip_quotes_slice(&c(s)).to_vec(), c(s.trim_matches('"')), "{:?}", s);
    }
}

#[test]
fn parse_matches_std() {
    for s in [
        "", "+", "-", "0", "+0", "-0", "007", "42", "+42", "++42", "4 2", " 42", "42 ", "4_2",
        "65535", "65536", "4294967295", "4294967296", "99999999999999999999999", "0x10", "١٢",
        "12a", "a12",
    ] {
        assert_eq!(parse_u32(&c(s)), s.parse::<u32>().ok(), "{:?}", s);
        assert_eq!(parse_u16(&c(s)), s.parse::<u16>().ok(), "{:?}", s);
    }
}

#[test]
fn digits_have_values() {
    assert_eq!(digit_of('0'), Some(0));
    assert_eq!(digit_of('9'), Some(9));
    assert_eq!(digit_of('/'), None);
    assert_eq!(digit_of(':'), None);
    assert_eq!(digit_of('٣'), None);
}

#[test]
fn leading_number_saturates() {
    assert_eq!(read_leading_number(&c("")), None);
    assert_eq!(read_leading_number(&c("x1")), None);
    assert_eq!(read_leading_number(&c("+1")), None);
    assert_eq!(read_leading_number(&c("0")), Some(0));
    assert_eq!(read_leading_number(&c("12ab34")), Some(12));
    assert_eq!(read_leading_number(&c("4294967295")), Some(u32::MAX));
    assert_eq!(read_leading_number(&c("4294967296")), Some(u32::MAX));
    assert_eq!(read_leading_number(&c("99999999999999999999999999999 ")), Some(u32::MAX));
}

#[test]
fn lines_are_split() {
    let views = |s: &str| -> Vec<String> { lines_of(&c(s)).iter().map(|l| l.iter().collect()).collect() };
    assert_eq!(views(""), Vec::<String>::new());
    assert_eq!(views("a"), vec!["a"]);
    assert_eq!(views("a\n"), vec!["a"]);
    assert_eq!(views("a\r\nb"), vec!["a", "b"]);
    assert_eq!(views("a\n\nb\n"), vec!["a", "", "b"]);
    assert_eq!(views("\n"), vec![""]);
    assert_eq!(views("a\r\r\nb\r"), vec!["a\r", "b\r"]);
    assert_eq!(views("\r\n\r\n"), vec!["", ""]);
}

#[test]
fn parts_are_taken() {
    let s = c("a,b,c");
    let comma = c(",");
    assert_eq!(take_before(&s, &comma).to_vec(), c("a"));
    assert_eq!(take_after(&s, &comma).map(|r| r.to_vec()), Some(c("b,c")));
    assert_eq!(take_second(&s, &comma).map(|r| r.to_vec()), Some(c("b")));
    let s = c("abc");
    assert_eq!(take_before(&s, &comma).to_vec(), c("abc"));
    assert_eq!(take_after(&s, &comma).map(|r| r.to_vec()), None);
    assert_eq!(take_second(&s, &comma).map(|r| r.to_vec()), None);
    let s = c("a,");
    assert_eq!(take_second(&s, &comma).map(|r| r.to_vec()), Some(c("")));
    let sep = c("--");
    for text in ["x--y--z", "--", "x--", "---", "x-y"] {
        let expected = text.split("--").nth(1).map(c);
        assert_eq!(take_second(&c(text), &sep).map(|r| r.to_vec()), expected, "{:?}", text);
        let first = text.split("--").next().map(c).unwrap();
        assert_eq!(take_before(&c(text), &sep).to_vec(), first, "{:?}", text);
    }
}
