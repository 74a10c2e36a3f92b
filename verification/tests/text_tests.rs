use entitan::text::{
    digit, eq_ignore_ascii_case, find, from_chars, is_ascii_letter, is_whitespace, join, lines,
    lower_code, push_decimal, slice, split, starts_with, to_chars, trim, unlines,
};

fn chars(s: &str) -> Vec<char> {
    s.chars().collect()
}

fn text(v: &Vec<char>) -> String {
    v.iter().collect()
}

fn split_lines(s: &str) -> Vec<String> {
    lines(&chars(s)).iter().map(text).collect()
}

#[test]
fn whitespace_is_what_the_standard_library_says() {
    let mut code: u32 = 0;
    while code <= 0x10FFFF {
        if let Some(c) = char::from_u32(code) {
            assert_eq!(is_whitespace(c), c.is_whitespace(), "U+{:04X}", code);
        }
        code += 1;
    }
}

#[test]
fn chars_round_trip() {
    let s = "SET audioLocale \"enUS\"\n\u{e9}t\u{e9}";
    assert_eq!(to_chars(s), chars(s));
    assert_eq!(from_chars(&to_chars(s)), s);
}

#[test]
fn lines_are_what_the_standard_library_says() {
    let samples = [
        "",
        "\n",
        "a",
        "a\n",
        "a\nb",
        "a\r\nb\r\n",
        "a\r",
        "a\r\r\n",
        "\r\n",
        "\n\n",
        "foo\nbar\n\r\nbaz\r",
        "a\rb\nc",
        "  x  \n\ty\n",
    ];
    for s in samples {
        let want: Vec<String> = s.lines().map(|l| l.to_string()).collect();
        assert_eq!(split_lines(s), want, "{:?}", s);
    }
}

#[test]
fn trim_is_what_the_standard_library_says() {
    let samples = ["", " ", "a", "  a  ", "\t a b \r\n", "\u{3000}x\u{a0}", " \u{85} ", "a  b"];
    for s in samples {
        assert_eq!(text(&trim(&chars(s))), s.trim(), "{:?}", s);
    }
}

#[test]
fn unlines_ends_every_line() {
    let ls = vec![chars("a"), chars(""), chars("b c")];
    assert_eq!(text(&unlines(&ls)), "a\n\nb c\n");
    assert_eq!(text(&unlines(&Vec::new())), "");
}

#[test]
fn find_gives_the_first_position() {
    assert_eq!(find(&chars("a\"b\"c"), '"'), Some(1));
    assert_eq!(find(&chars("abc"), '"'), None);
    assert_eq!(find(&chars(""), 'x'), None);
    assert_eq!(find(&chars("\u{e9}x"), 'x'), Some(1));
}

#[test]
fn starts_with_is_a_prefix_test() {
    assert!(starts_with(&chars("SET audioLocale \"x\""), &chars("SET audioLocale")));
    assert!(!starts_with(&chars("SET audio"), &chars("SET audioLocale")));
    assert!(!starts_with(&chars("set audioLocale"), &chars("SET audioLocale")));
    assert!(starts_with(&chars("abc"), &chars("")));
}

#[test]
fn slice_takes_the_range() {
    assert_eq!(text(&slice(&chars("hello"), 1, 3)), "el");
    assert_eq!(text(&slice(&chars("hello"), 2, 2)), "");
    assert_eq!(text(&slice(&chars("hello"), 0, 5)), "hello");
}

#[test]
fn decimal_is_written_without_leading_zeros() {
    for n in 0..=255u8 {
        let mut s = String::from("n=");
        push_decimal(&mut s, n);
        assert_eq!(s, format!("n={}", n));
    }
}

#[test]
fn digits_are_the_ten_digits() {
    let all: String = (0..10u8).map(digit).collect();
    assert_eq!(all, "0123456789");
}

#[test]
fn letters_are_the_ascii_letters() {
    let mut code: u32 = 0;
    while code <= 0x10FFFF {
        if let Some(c) = char::from_u32(code) {
            assert_eq!(is_ascii_letter(c), c.is_ascii_alphabetic(), "U+{:04X}", code);
        }
        code += 1;
    }
}

#[test]
fn case_is_ignored_for_ascii_letters_only() {
    let pairs = [
        ("enUS", "ENus"),
        ("exe", "EXE"),
        ("exe", "ex"),
        ("", ""),
        ("\u{e9}", "\u{c9}"),
        ("a[", "a{"),
        ("@", "`"),
        ("Z", "z"),
        ("frFR", "deDE"),
    ];
    for (a, b) in pairs {
        assert_eq!(
            eq_ignore_ascii_case(&chars(a), &chars(b)),
            a.eq_ignore_ascii_case(b),
            "{:?} {:?}",
            a,
            b
        );
    }
}

#[test]
fn lower_code_folds_capitals() {
    assert_eq!(lower_code('A'), 'a' as u32);
    assert_eq!(lower_code('Z'), 'z' as u32);
    assert_eq!(lower_code('a'), 'a' as u32);
    assert_eq!(lower_code('['), '[' as u32);
    assert_eq!(lower_code('\u{c9}'), 0xc9);
}

#[test]
fn join_puts_the_separator_between() {
    let parts = vec!["a".to_string(), "".to_string(), "b".to_string()];
    assert_eq!(join(&parts, "; "), "a; ; b");
    assert_eq!(join(&vec!["only".to_string()], "; "), "only");
    assert_eq!(join(&Vec::new(), "; "), "");
}

#[test]
fn split_is_what_the_standard_library_says() {
    let samples = ["", ",", "a", "a,b", "a,,b", ",a,", "10,20,600,400", "1,2,3"];
    for s in samples {
        let got: Vec<String> = split(&chars(s), ',').iter().map(text).collect();
        let want: Vec<String> = s.split(',').map(|p| p.to_string()).collect();
        assert_eq!(got, want, "{:?}", s);
    }
}
