use entitan::settings::{
    geometry_fields, parse_settings, render_settings, settings_location, GeometryFields,
    Settings,
};

fn fields(x: &str, y: &str, width: &str, height: &str) -> GeometryFields {
    GeometryFields {
        x: x.to_string(),
        y: y.to_string(),
        width: width.to_string(),
        height: height.to_string(),
    }
}

fn settings(
    battle: &str,
    config: &str,
    wow: &str,
    preferred: &str,
    geometry: Option<GeometryFields>,
) -> Settings {
    Settings {
        battle: battle.to_string(),
        config: config.to_string(),
        wow: wow.to_string(),
        preferred: preferred.to_string(),
        geometry,
    }
}

#[test]
fn without_a_file_everything_is_empty() {
    assert_eq!(parse_settings(None), settings("", "", "", "", None));
}

#[test]
fn five_lines_are_read() {
    let contents = "C:/bnet.exe\nC:/WTF/Config.wtf\nC:/Wow.exe\nfrFR\n10,20,640.5,480\n";
    assert_eq!(
        parse_settings(Some(contents)),
        settings(
            "C:/bnet.exe",
            "C:/WTF/Config.wtf",
            "C:/Wow.exe",
            "frFR",
            Some(fields("10", "20", "640.5", "480"))
        )
    );
}

#[test]
fn missing_lines_read_as_empty_and_the_locale_as_the_default() {
    assert_eq!(parse_settings(Some("")), settings("", "", "", "enUS", None));
    assert_eq!(parse_settings(Some("a\nb\n")), settings("a", "b", "", "enUS", None));
    assert_eq!(parse_settings(Some("a\nb\nc\n\n")), settings("a", "b", "c", "", None));
}

#[test]
fn lines_are_trimmed() {
    let contents = "  a  \r\n\tb\r\n c\r\n enUS \r\n  1,2,3,4  \r\n";
    assert_eq!(
        parse_settings(Some(contents)),
        settings("a", "b", "c", "enUS", Some(fields("1", "2", "3", "4")))
    );
}

#[test]
fn a_geometry_needs_four_fields() {
    let head = "a\nb\nc\nenUS\n";
    for line in ["", "   ", "1,2,3", "1,2,3,4,5", "nonsense"] {
        let contents = format!("{}{}\n", head, line);
        assert_eq!(parse_settings(Some(&contents)).geometry, None, "{:?}", line);
    }
    let contents = format!("{}{}\n", head, ",,,");
    assert_eq!(parse_settings(Some(&contents)).geometry, Some(fields("", "", "", "")));
    let contents = format!("{}{}\n", head, "1, 2,x,");
    assert_eq!(parse_settings(Some(&contents)).geometry, Some(fields("1", " 2", "x", "")));
}

#[test]
fn settings_are_written_as_five_lines() {
    let with = settings("a", "b", "c", "frFR", Some(fields("10", "-20", "640.5", "480")));
    assert_eq!(render_settings(&with), "a\nb\nc\nfrFR\n10,-20,640.5,480\n");
    let without = settings("a", "b", "c", "frFR", None);
    assert_eq!(render_settings(&without), "a\nb\nc\nfrFR\n\n");
    assert_eq!(render_settings(&settings("", "", "", "", None)), "\n\n\n\n\n");
}

#[test]
fn what_was_written_is_read_back() {
    let all = [
        settings("C:/b.exe", "C:/c.wtf", "C:/w.exe", "deDE", Some(fields("1", "2", "3.5", "4"))),
        settings("C:/b.exe", "C:/c.wtf", "C:/w.exe", "deDE", None),
        settings("", "", "", "enUS", None),
    ];
    for s in all {
        assert_eq!(parse_settings(Some(&render_settings(&s))), s);
    }
}

#[test]
fn the_settings_file_lies_under_the_configuration_directory() {
    let parts = |v: &[&str]| Some(v.iter().map(|s| s.to_string()).collect::<Vec<String>>());
    assert_eq!(
        settings_location(true, Some("C:/Users/u/AppData/Roaming"), Some("/x"), Some("/h")),
        parts(&["C:/Users/u/AppData/Roaming", "entitan", "settings.txt"])
    );
    assert_eq!(settings_location(true, None, Some("/x"), Some("/h")), None);
    assert_eq!(
        settings_location(false, Some("C:/a"), Some("/x"), Some("/h")),
        parts(&["/x", "entitan", "settings.txt"])
    );
    assert_eq!(
        settings_location(false, Some("C:/a"), None, Some("/h")),
        parts(&["/h", ".config", "entitan", "settings.txt"])
    );
    assert_eq!(settings_location(false, Some("C:/a"), None, None), None);
}

#[test]
fn a_geometry_is_kept_only_where_position_and_size_are_known() {
    let pair = |a: &str, b: &str| Some((a.to_string(), b.to_string()));
    assert_eq!(
        geometry_fields(pair("10", "-20"), pair("640.5", "480")),
        Some(fields("10", "-20", "640.5", "480"))
    );
    assert_eq!(geometry_fields(pair("10", "-20"), None), None);
    assert_eq!(geometry_fields(None, pair("640.5", "480")), None);
    assert_eq!(geometry_fields(None, None), None);
    let kept = settings("a", "b", "c", "frFR", geometry_fields(pair("1", "2"), None));
    assert_eq!(render_settings(&kept), "a\nb\nc\nfrFR\n\n");
}
