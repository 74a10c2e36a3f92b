use entitan::locale::{
    default_locale, is_valid_locale, locale_matches, normalization_notice, normalize_preferred,
    Normalization, MAX_LOCALE_LEN,
};

fn normalized(input: &str) -> String {
    normalize_preferred(input).0
}

#[test]
fn a_preferred_locale_is_kept() {
    assert_eq!(normalize_preferred("enUS"), ("enUS".to_string(), Normalization::Kept));
    assert_eq!(normalize_preferred("frFR"), ("frFR".to_string(), Normalization::Kept));
    assert_eq!(normalize_preferred("de"), ("de".to_string(), Normalization::Kept));
}

#[test]
fn an_empty_input_becomes_the_default() {
    assert_eq!(normalize_preferred(""), ("enUS".to_string(), Normalization::Defaulted));
    assert_eq!(default_locale(), "enUS");
}

#[test]
fn an_input_without_letters_is_reset() {
    assert_eq!(normalize_preferred("1234"), ("enUS".to_string(), Normalization::Reset));
    assert_eq!(normalize_preferred("10,20,600,400"), ("enUS".to_string(), Normalization::Reset));
    assert_eq!(normalize_preferred(" "), ("enUS".to_string(), Normalization::Reset));
    assert_eq!(normalize_preferred("\u{e9}\u{e8}"), ("enUS".to_string(), Normalization::Reset));
}

#[test]
fn other_characters_are_dropped() {
    assert_eq!(normalize_preferred("fr-FR"), ("frFR".to_string(), Normalization::Filtered));
    assert_eq!(normalize_preferred("e1n2U3S4"), ("enUS".to_string(), Normalization::Filtered));
    assert_eq!(normalize_preferred(" deDE"), ("deDE".to_string(), Normalization::Filtered));
    assert_eq!(normalize_preferred("\u{e9}nUS"), ("nUS".to_string(), Normalization::Filtered));
}

#[test]
fn at_most_four_letters_stay() {
    assert_eq!(normalize_preferred("english"), ("engl".to_string(), Normalization::Filtered));
    assert_eq!(normalize_preferred("enUSx"), ("enUS".to_string(), Normalization::Filtered));
    assert_eq!(normalize_preferred("a-b-c-d-e-f"), ("abcd".to_string(), Normalization::Filtered));
    assert_eq!(MAX_LOCALE_LEN, 4);
}

#[test]
fn normalizing_twice_is_normalizing_once() {
    let samples = [
        "", "enUS", "frFR", "fr-FR", "english", "1234", " ", "a", "ab!", "\"quoted\"", "x\ny",
        "\u{e9}t\u{e9}", "ZZZZZ", "a1b2c3d4e5",
    ];
    for s in samples {
        let once = normalized(s);
        let twice = normalized(&once);
        assert_eq!(twice, once, "{:?}", s);
        assert_eq!(normalize_preferred(&once).1, Normalization::Kept, "{:?}", s);
        assert!(is_valid_locale(&once), "{:?}", s);
        assert!(!once.is_empty() && once.len() <= 4, "{:?}", s);
        assert!(once.chars().all(|c| c.is_ascii_alphabetic()), "{:?}", s);
    }
}

#[test]
fn validity_is_one_to_four_ascii_letters() {
    assert!(is_valid_locale("enUS"));
    assert!(is_valid_locale("x"));
    assert!(!is_valid_locale(""));
    assert!(!is_valid_locale("enUSx"));
    assert!(!is_valid_locale("en-U"));
    assert!(!is_valid_locale("\u{e9}n"));
}

#[test]
fn a_notice_is_given_where_something_was_dropped() {
    assert_eq!(normalization_notice(Normalization::Kept), None);
    assert_eq!(normalization_notice(Normalization::Defaulted), None);
    assert_eq!(
        normalization_notice(Normalization::Reset),
        Some("Preferred locale invalid; reset to enUS".to_string())
    );
    assert_eq!(
        normalization_notice(Normalization::Filtered),
        Some("Preferred locale filtered to letters only (max 4)".to_string())
    );
}

#[test]
fn a_value_matches_the_preferred_locale_whatever_the_case() {
    assert!(locale_matches(&Some("enUS".to_string()), "enUS"));
    assert!(locale_matches(&Some("ENUS".to_string()), "enus"));
    assert!(!locale_matches(&Some("deDE".to_string()), "enUS"));
    assert!(!locale_matches(&Some("enU".to_string()), "enUS"));
    assert!(!locale_matches(&Some("(file too large)".to_string()), "enUS"));
    assert!(!locale_matches(&None, "enUS"));
}
