use entitan::config::{parse_locales, rewrite_locales, LocaleValues};

/// The rewrite spelled out with the standard library's string functions.
fn recipe(contents: &str, locale: &str) -> String {
    let mut lines: Vec<String> = contents.lines().map(|l| l.to_string()).collect();
    let mut found_audio = false;
    let mut found_text = false;
    for line in lines.iter_mut() {
        let s = line.trim();
        if s.starts_with("SET audioLocale") {
            *line = format!("SET audioLocale \"{}\"", locale);
            found_audio = true;
        } else if s.starts_with("SET textLocale") {
            *line = format!("SET textLocale \"{}\"", locale);
            found_text = true;
        }
    }
    if !found_audio {
        lines.push(format!("SET audioLocale \"{}\"", locale));
    }
    if !found_text {
        lines.push(format!("SET textLocale \"{}\"", locale));
    }
    let mut out = lines.join("\n");
    out.push('\n');
    out
}

fn values(audio: Option<&str>, text: Option<&str>) -> LocaleValues {
    LocaleValues { audio: audio.map(|s| s.to_string()), text: text.map(|s| s.to_string()) }
}

#[test]
fn both_settings_are_read() {
    let contents = "SET portal \"EU\"\nSET audioLocale \"enUS\"\nSET textLocale \"deDE\"\n";
    assert_eq!(parse_locales(contents), values(Some("enUS"), Some("deDE")));
}

#[test]
fn a_missing_setting_reads_as_none() {
    assert_eq!(parse_locales(""), values(None, None));
    assert_eq!(parse_locales("SET portal \"EU\"\n"), values(None, None));
    assert_eq!(parse_locales("SET textLocale \"frFR\""), values(None, Some("frFR")));
    assert_eq!(parse_locales("SET audioLocale \"frFR\""), values(Some("frFR"), None));
}

#[test]
fn the_last_line_of_a_setting_counts() {
    let contents = "SET audioLocale \"enUS\"\nSET audioLocale \"frFR\"\nSET textLocale \"a\"\nSET textLocale \"b\"\n";
    assert_eq!(parse_locales(contents), values(Some("frFR"), Some("b")));
}

#[test]
fn a_line_without_a_quoted_value_sets_nothing() {
    assert_eq!(parse_locales("SET audioLocale enUS\n"), values(None, None));
    assert_eq!(parse_locales("SET audioLocale \"enUS\n"), values(None, None));
    let contents = "SET audioLocale \"enUS\"\nSET audioLocale broken\n";
    assert_eq!(parse_locales(contents), values(Some("enUS"), None));
}

#[test]
fn the_value_is_what_stands_between_the_first_two_quotes() {
    assert_eq!(parse_locales("SET audioLocale \"\"\n"), values(Some(""), None));
    assert_eq!(parse_locales("SET audioLocale \"a\" \"b\"\n"), values(Some("a"), None));
    assert_eq!(parse_locales("SET audioLocale\"x y\"tail\n"), values(Some("x y"), None));
    assert_eq!(parse_locales("SET audioLocaleExtra \"zz\"\n"), values(Some("zz"), None));
}

#[test]
fn white_space_around_a_line_is_ignored() {
    let contents = "  \tSET audioLocale \"enUS\"  \r\n\u{a0}SET textLocale \"deDE\"\u{3000}\r\n";
    assert_eq!(parse_locales(contents), values(Some("enUS"), Some("deDE")));
}

#[test]
fn the_key_is_matched_exactly() {
    assert_eq!(parse_locales("set audioLocale \"enUS\"\n"), values(None, None));
    assert_eq!(parse_locales("SET  audioLocale \"enUS\"\n"), values(None, None));
    assert_eq!(parse_locales("# SET audioLocale \"enUS\"\n"), values(None, None));
}

#[test]
fn both_lines_are_rewritten_and_nothing_else() {
    let contents = "SET portal \"EU\"\nSET audioLocale \"enUS\"\nSET gxApi \"D3D12\"\nSET textLocale \"deDE\"\nSET last \"x\"\n";
    let want = "SET portal \"EU\"\nSET audioLocale \"frFR\"\nSET gxApi \"D3D12\"\nSET textLocale \"frFR\"\nSET last \"x\"\n";
    assert_eq!(rewrite_locales(contents, "frFR"), want);
}

#[test]
fn a_missing_setting_is_appended() {
    assert_eq!(
        rewrite_locales("", "frFR"),
        "SET audioLocale \"frFR\"\nSET textLocale \"frFR\"\n"
    );
    assert_eq!(
        rewrite_locales("SET portal \"EU\"", "frFR"),
        "SET portal \"EU\"\nSET audioLocale \"frFR\"\nSET textLocale \"frFR\"\n"
    );
    assert_eq!(
        rewrite_locales("SET textLocale \"enUS\"\nrest\n", "deDE"),
        "SET textLocale \"deDE\"\nrest\nSET audioLocale \"deDE\"\n"
    );
    assert_eq!(
        rewrite_locales("SET audioLocale \"enUS\"\nrest\n", "deDE"),
        "SET audioLocale \"deDE\"\nrest\nSET textLocale \"deDE\"\n"
    );
}

#[test]
fn every_line_of_a_setting_is_rewritten() {
    let contents = "SET audioLocale \"a\"\nx\n  SET audioLocale broken\nSET textLocale \"b\"\n";
    let want = "SET audioLocale \"frFR\"\nx\nSET audioLocale \"frFR\"\nSET textLocale \"frFR\"\n";
    assert_eq!(rewrite_locales(contents, "frFR"), want);
}

#[test]
fn line_ends_become_line_feeds() {
    assert_eq!(
        rewrite_locales("a\r\nSET audioLocale \"x\"\r\nSET textLocale \"y\"", "enUS"),
        "a\nSET audioLocale \"enUS\"\nSET textLocale \"enUS\"\n"
    );
    assert_eq!(
        rewrite_locales("keep  \n\n  indented\n", "enUS"),
        "keep  \n\n  indented\nSET audioLocale \"enUS\"\nSET textLocale \"enUS\"\n"
    );
}

#[test]
fn rewriting_then_reading_gives_the_locale() {
    let files = [
        "",
        "\n",
        "SET audioLocale \"enUS\"\nSET textLocale \"deDE\"\n",
        "SET audioLocale broken\nSET textLocale\n",
        "junk\r\nSET audioLocale \"a\"\r\nmore junk\r",
        "SET textLocale \"x\"\nSET textLocale \"y\"\nSET audioLocale \"z\"",
        "\"quotes\" everywhere \"\n\"SET audioLocale \"q\"\n",
        "tail\r",
    ];
    let locales = ["frFR", "enUS", "x", "deDE", "", "with space", "caf\u{e9}", "a\rb"];
    for contents in files {
        for locale in locales {
            let written = rewrite_locales(contents, locale);
            assert_eq!(
                parse_locales(&written),
                values(Some(locale), Some(locale)),
                "{:?} {:?}",
                contents,
                locale
            );
        }
    }
}

#[test]
fn reading_twice_gives_the_same() {
    let files = [
        "",
        "SET audioLocale \"enUS\"\nSET textLocale \"deDE\"\n",
        "SET audioLocale \"enUS\"\r\nSET audioLocale \"frFR\"\r\n",
        "nothing here",
    ];
    for contents in files {
        assert_eq!(parse_locales(contents), parse_locales(contents), "{:?}", contents);
    }
}

#[test]
fn rewriting_is_what_the_plain_recipe_gives() {
    let files = [
        "",
        "\n\n",
        "a\nb",
        "SET audioLocale \"enUS\"\nSET textLocale \"deDE\"\n",
        " SET textLocale \"x\" \r\nother\r\n",
        "SET audioLocale\nSET audioLocale\n",
        "x\r",
    ];
    for contents in files {
        assert_eq!(rewrite_locales(contents, "frFR"), recipe(contents, "frFR"), "{:?}", contents);
    }
}
