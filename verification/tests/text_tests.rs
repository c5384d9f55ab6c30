use daemon_config::number::{
    digit_of, digit_to_char, read_number, read_thousandths, write_number, write_thousandths,
    Reading,
};
use daemon_config::quote::{read_quoted, scan_quoted, write_quoted};
use daemon_config::text::{
    append_chars, append_str, chars_of, find_char, piece, same_chars, space_char, spells,
    split_at, text_of, trim,
};

fn chars(text: &str) -> Vec<char> {
    text.chars().collect()
}

fn text(chars: Vec<char>) -> String {
    chars.into_iter().collect()
}

#[test]
fn strings_and_characters() {
    assert_eq!(chars_of("aä€😀"), vec!['a', 'ä', '€', '😀']);
    assert_eq!(chars_of(""), Vec::<char>::new());
    assert_eq!(text_of(&vec!['a', 'ä', '€', '😀']), "aä€😀");
    assert_eq!(text_of(&vec![]), "");
    assert_eq!(piece(&chars("hello"), 1, 3), chars("el"));
    assert_eq!(piece(&chars("hello"), 2, 2), chars(""));
    assert!(same_chars(&chars("abc"), &chars("abc")));
    assert!(!same_chars(&chars("abc"), &chars("abd")));
    assert!(!same_chars(&chars("abc"), &chars("ab")));
    assert!(spells(&chars("dht"), "dht"));
    assert!(!spells(&chars("dht"), "Dht"));
    let mut out = chars("ab");
    append_chars(&mut out, &chars("cd"));
    append_str(&mut out, "ef");
    assert_eq!(out, chars("abcdef"));
    assert_eq!(find_char(&chars("a=b=c"), '='), Some(1));
    assert_eq!(find_char(&chars("abc"), '='), None);
}

#[test]
fn white_space_is_trimmed_at_both_ends() {
    assert_eq!(trim(&chars("  a b\t\n")), chars("a b"));
    assert_eq!(trim(&chars("\u{2003}x\u{3000}")), chars("x"));
    assert_eq!(trim(&chars(" \t ")), chars(""));
    assert_eq!(trim(&chars("")), chars(""));
    assert_eq!(trim(&chars("x")), chars("x"));
    assert_eq!(trim(&chars("\u{200b}x")), chars("\u{200b}x"));
    for c in ['\t', '\n', '\u{b}', '\u{c}', '\r', ' ', '\u{85}', '\u{a0}', '\u{1680}', '\u{2000}', '\u{200a}', '\u{2028}', '\u{2029}', '\u{202f}', '\u{205f}', '\u{3000}'] {
        assert!(space_char(c));
        assert!(c.is_whitespace());
    }
    for c in ['a', '0', '_', '\u{200b}', '\u{8}', '\u{e}', '\u{180e}', '\u{feff}'] {
        assert!(!space_char(c));
        assert!(!c.is_whitespace());
    }
}

#[test]
fn splitting() {
    let pieces = |s: &str, sep: char| -> Vec<String> { split_at(&chars(s), sep).into_iter().map(text).collect() };
    assert_eq!(pieces("a.b.c", '.'), vec!["a", "b", "c"]);
    assert_eq!(pieces("", '.'), vec![""]);
    assert_eq!(pieces(".", '.'), vec!["", ""]);
    assert_eq!(pieces("a..b.", '.'), vec!["a", "", "b", ""]);
    assert_eq!(pieces("abc", '.'), vec!["abc"]);
}

#[test]
fn digits() {
    assert_eq!(digit_of('7', 10), Some(7));
    assert_eq!(digit_of('a', 10), None);
    assert_eq!(digit_of('a', 16), Some(10));
    assert_eq!(digit_of('F', 16), Some(15));
    assert_eq!(digit_of('g', 16), None);
    assert_eq!(digit_of('8', 8), None);
    assert_eq!(digit_to_char(0), '0');
    assert_eq!(digit_to_char(9), '9');
    assert_eq!(digit_to_char(10), 'a');
    assert_eq!(digit_to_char(15), 'f');
}

#[test]
fn reading_numbers() {
    assert_eq!(read_number(&chars("0"), 10, 0), Reading::Number(0));
    assert_eq!(read_number(&chars("1439"), 10, 1439), Reading::Number(1439));
    assert_eq!(read_number(&chars("1440"), 10, 1439), Reading::TooLarge);
    assert_eq!(read_number(&chars("000000000000000000012"), 10, 12), Reading::Number(12));
    assert_eq!(read_number(&chars("99999999999999999999999999"), 10, u32::MAX), Reading::TooLarge);
    assert_eq!(read_number(&chars("999999999999x"), 10, 5), Reading::Malformed);
    assert_eq!(read_number(&chars(""), 10, 5), Reading::Malformed);
    assert_eq!(read_number(&chars("-1"), 10, 5), Reading::Malformed);
    assert_eq!(read_number(&chars("ffff"), 16, 0xffff), Reading::Number(0xffff));
    assert_eq!(read_number(&chars("10000"), 16, 0xffff), Reading::TooLarge);
    assert_eq!(read_number(&chars("ff"), 10, 0xffff), Reading::Malformed);
}

#[test]
fn writing_numbers() {
    assert_eq!(text(write_number(0, 10)), "0");
    assert_eq!(text(write_number(1020, 10)), "1020");
    assert_eq!(text(write_number(u32::MAX, 10)), "4294967295");
    assert_eq!(text(write_number(0xdb8, 16)), "db8");
    assert_eq!(text(write_number(0, 16)), "0");
    assert_eq!(text(write_number(5, 2)), "101");
    for n in [0u32, 9, 10, 99, 100, 65535, 65536, u32::MAX] {
        assert_eq!(read_number(&write_number(n, 10), 10, u32::MAX), Reading::Number(n));
        assert_eq!(read_number(&write_number(n, 16), 16, u32::MAX), Reading::Number(n));
    }
}

#[test]
fn thousandths() {
    assert_eq!(read_thousandths(&chars("2")), Reading::Number(2000));
    assert_eq!(read_thousandths(&chars("2.5")), Reading::Number(2500));
    assert_eq!(read_thousandths(&chars("2.05")), Reading::Number(2050));
    assert_eq!(read_thousandths(&chars("2.005")), Reading::Number(2005));
    assert_eq!(read_thousandths(&chars("0.000")), Reading::Number(0));
    assert_eq!(read_thousandths(&chars("4294967.295")), Reading::Number(u32::MAX));
    assert_eq!(read_thousandths(&chars("4294967.296")), Reading::TooLarge);
    assert_eq!(read_thousandths(&chars("4294968")), Reading::TooLarge);
    assert_eq!(read_thousandths(&chars("2.0005")), Reading::Malformed);
    assert_eq!(read_thousandths(&chars("2.")), Reading::Malformed);
    assert_eq!(read_thousandths(&chars(".5")), Reading::Malformed);
    assert_eq!(read_thousandths(&chars("2.5.1")), Reading::Malformed);
    assert_eq!(read_thousandths(&chars("two")), Reading::Malformed);
    assert_eq!(text(write_thousandths(2000)), "2.000");
    assert_eq!(text(write_thousandths(5)), "0.005");
    assert_eq!(text(write_thousandths(1250)), "1.250");
    assert_eq!(text(write_thousandths(u32::MAX)), "4294967.295");
    for n in [0u32, 1, 999, 1000, 123456, u32::MAX] {
        assert_eq!(read_thousandths(&write_thousandths(n)), Reading::Number(n));
    }
}

#[test]
fn quoting() {
    let quote = |s: &str| -> String {
        let mut out = Vec::new();
        write_quoted(&mut out, &chars(s));
        text(out)
    };
    assert_eq!(quote("plain"), "\"plain\"");
    assert_eq!(quote(""), "\"\"");
    assert_eq!(quote("a\"b\\c\nd"), "\"a\\\"b\\\\c\\nd\"");
    assert_eq!(read_quoted(&chars("\"plain\"")), Some(chars("plain")));
    assert_eq!(read_quoted(&chars("\"a\\\"b\\\\c\\nd\"")), Some(chars("a\"b\\c\nd")));
    assert_eq!(read_quoted(&chars("\"\"")), Some(chars("")));
    for bad in ["", "\"", "plain", "\"open", "\"a\"b\"", "\"bad\\tescape\"", "\"end\\", "\"a\" ", "\"a\nb\"", "\"a\\\""] {
        assert_eq!(read_quoted(&chars(bad)), None, "{}", bad);
    }
    for s in ["", "x", "\\", "\"", "\n", "\\n", "a\\\"b", "ünï\u{0}"] {
        assert_eq!(read_quoted(&chars(&quote(s))), Some(chars(s)));
    }
    assert_eq!(scan_quoted(&chars("[\"ab\",\"c\"]"), 2), Some((chars("ab"), 5)));
    assert_eq!(scan_quoted(&chars("abc"), 0), None);
    assert_eq!(scan_quoted(&chars("abc\""), 7), None);
}
