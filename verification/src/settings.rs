//! The settings that are kept between sessions: where their file lies and how
//! its five lines are read and written.
//!
//! The file holds the launcher's path, the configuration file's path, the game's
//! path, the preferred locale, and the window's geometry as four fields divided
//! by commas. The fields are numbers, two of them fractional; this crate hands
//! them through as text.

use vstd::prelude::*;
use vstd::string::*;
use crate::text::{
    from_chars, lines, spec_lines, spec_split, spec_trim, split, to_chars, trim, view_lines,
};

verus! {

/// The window's geometry as the settings file holds it: four fields of text.
#[derive(Clone, Debug, PartialEq, Eq)]
pub struct GeometryFields {
    /// The window's horizontal position.
    pub x: String,
    /// The window's vertical position.
    pub y: String,
    /// The window's width.
    pub width: String,
    /// The window's height.
    pub height: String,
}

/// [`GeometryFields`] with its texts as sequences of characters.
pub struct GeometryFieldsView {
    pub x: Seq<char>,
    pub y: Seq<char>,
    pub width: Seq<char>,
    pub height: Seq<char>,
}

impl View for GeometryFields {
    type V = GeometryFieldsView;

    open spec fn view(&self) -> GeometryFieldsView {
        GeometryFieldsView { x: self.x@, y: self.y@, width: self.width@, height: self.height@ }
    }
}

/// The settings as the file holds them.
#[derive(Clone, Debug, PartialEq, Eq)]
pub struct Settings {
    /// The launcher's path.
    pub battle: String,
    /// The configuration file's path.
    pub config: String,
    /// The game's path.
    pub wow: String,
    /// The preferred locale.
    pub preferred: String,
    /// The window's geometry, where the file holds four fields for it.
    pub geometry: Option<GeometryFields>,
}

/// [`Settings`] with its texts as sequences of characters.
pub struct SettingsView {
    pub battle: Seq<char>,
    pub config: Seq<char>,
    pub wow: Seq<char>,
    pub preferred: Seq<char>,
    pub geometry: Option<GeometryFieldsView>,
}

impl View for Settings {
    type V = SettingsView;

    open spec fn view(&self) -> SettingsView {
        SettingsView {
            battle: self.battle@,
            config: self.config@,
            wow: self.wow@,
            preferred: self.preferred@,
            geometry: view_geometry(self.geometry),
        }
    }
}

/// Line `i` of `lines` without the white space at its ends, or `fallback` where
/// there is no such line.
pub open spec fn spec_line_or(lines: Seq<Seq<char>>, i: int, fallback: Seq<char>) -> Seq<char> {
    if 0 <= i < lines.len() {
        spec_trim(lines[i])
    } else {
        fallback
    }
}

/// The geometry that a line holds: its four fields, where the line, white space
/// at its ends aside, is four fields divided by commas.
pub open spec fn spec_geometry(line: Seq<char>) -> Option<GeometryFieldsView> {
    let fields = spec_split(spec_trim(line), ',');
    if spec_trim(line).len() > 0 && fields.len() == 4 {
        Some(GeometryFieldsView { x: fields[0], y: fields[1], width: fields[2], height: fields[3] })
    } else {
        None
    }
}

/// The settings that a file of the given contents holds.
pub open spec fn spec_parse_settings(contents: Seq<char>) -> SettingsView {
    let all = spec_lines(contents);
    SettingsView {
        battle: spec_line_or(all, 0, Seq::empty()),
        config: spec_line_or(all, 1, Seq::empty()),
        wow: spec_line_or(all, 2, Seq::empty()),
        preferred: spec_line_or(all, 3, "enUS"@),
        geometry: if all.len() > 4 {
            spec_geometry(all[4])
        } else {
            None
        },
    }
}

/// The settings that stand in where there is no file to read.
pub open spec fn spec_no_settings() -> SettingsView {
    SettingsView {
        battle: Seq::empty(),
        config: Seq::empty(),
        wow: Seq::empty(),
        preferred: Seq::empty(),
        geometry: None,
    }
}

/// The line that holds a geometry.
pub open spec fn spec_geometry_line(geometry: Option<GeometryFieldsView>) -> Seq<char> {
    match geometry {
        Some(g) => g.x + ","@ + g.y + ","@ + g.width + ","@ + g.height,
        None => Seq::empty(),
    }
}

/// The contents of the file that holds the given settings: five lines, each
/// ended by a line feed, the last one empty where there is no geometry.
pub open spec fn spec_render_settings(settings: SettingsView) -> Seq<char> {
    settings.battle + "\n"@ + settings.config + "\n"@ + settings.wow + "\n"@ + settings.preferred
        + "\n"@ + spec_geometry_line(settings.geometry) + "\n"@
}

/// Where the settings file lies, as the components of its path: under
/// `appdata` on Windows; elsewhere under `xdg_config_home`, or else under
/// `.config` in `home`; in the directory `entitan`, by the name `settings.txt`.
pub open spec fn spec_settings_location(
    windows: bool,
    appdata: Option<Seq<char>>,
    xdg_config_home: Option<Seq<char>>,
    home: Option<Seq<char>>,
) -> Option<Seq<Seq<char>>> {
    if windows {
        match appdata {
            Some(base) => Some(seq![base, "entitan"@, "settings.txt"@]),
            None => None,
        }
    } else {
        match xdg_config_home {
            Some(base) => Some(seq![base, "entitan"@, "settings.txt"@]),
            None => match home {
                Some(base) => Some(seq![base, ".config"@, "entitan"@, "settings.txt"@]),
                None => None,
            },
        }
    }
}

/// Line `i` of `all` without the white space at its ends, or `fallback` where
/// there is no such line.
fn line_or(all: &Vec<Vec<char>>, i: usize, fallback: &str) -> (r: String)
    ensures
        r@ == spec_line_or(view_lines(all@), i as int, fallback@),
{
    if i < all.len() {
        let trimmed = trim(&all[i]);
        from_chars(&trimmed)
    } else {
        fallback.to_owned()
    }
}

/// The geometry that a line holds.
fn geometry(line: &Vec<char>) -> (r: Option<GeometryFields>)
    ensures
        view_geometry(r) == spec_geometry(line@),
{
    let trimmed = trim(line);
    if trimmed.len() == 0 {
        return None;
    }
    let fields = split(&trimmed, ',');
    if fields.len() != 4 {
        return None;
    }
    Some(
        GeometryFields {
            x: from_chars(&fields[0]),
            y: from_chars(&fields[1]),
            width: from_chars(&fields[2]),
            height: from_chars(&fields[3]),
        },
    )
}

/// Reads the settings out of the contents of their file, or gives the settings
/// that stand in where there was no file to read. A line that is missing reads
/// as empty, but for the preferred locale, which then reads `enUS`; every line
/// is taken without the white space at its ends.
pub fn parse_settings(contents: Option<&str>) -> (settings: Settings)
    ensures
        settings@ == match contents {
            Some(text) => spec_parse_settings(text@),
            None => spec_no_settings(),
        },
{
    match contents {
        None => Settings {
            battle: String::new(),
            config: String::new(),
            wow: String::new(),
            preferred: String::new(),
            geometry: None,
        },
        Some(text) => {
            let chars = to_chars(text);
            let all = lines(&chars);
            proof {
                reveal_strlit("");
                assert(""@ =~= Seq::<char>::empty());
            }
            Settings {
                battle: line_or(&all, 0, ""),
                config: line_or(&all, 1, ""),
                wow: line_or(&all, 2, ""),
                preferred: line_or(&all, 3, "enUS"),
                geometry: if all.len() > 4 {
                    geometry(&all[4])
                } else {
                    None
                },
            }
        },
    }
}

/// The contents of the file that holds the given settings.
pub fn render_settings(settings: &Settings) -> (out: String)
    ensures
        out@ == spec_render_settings(settings@),
{
    let mut out = String::new();
    out.append(settings.battle.as_str());
    out.append("\n");
    out.append(settings.config.as_str());
    out.append("\n");
    out.append(settings.wow.as_str());
    out.append("\n");
    out.append(settings.preferred.as_str());
    out.append("\n");
    let ghost head = out@;
    match &settings.geometry {
        Some(g) => {
            let mut line = String::new();
            line.append(g.x.as_str());
            line.append(",");
            line.append(g.y.as_str());
            line.append(",");
            line.append(g.width.as_str());
            line.append(",");
            line.append(g.height.as_str());
            assert(line@ =~= spec_geometry_line(settings@.geometry));
            out.append(line.as_str());
        },
        None => {
            assert(head + spec_geometry_line(settings@.geometry) =~= head);
        },
    }
    out.append("\n");
    assert(head =~= settings@.battle + "\n"@ + settings@.config + "\n"@ + settings@.wow + "\n"@
        + settings@.preferred + "\n"@);
    out
}

/// A pair of texts, where there is one, as sequences of characters.
pub open spec fn view_pair(pair: Option<(String, String)>) -> Option<(Seq<char>, Seq<char>)> {
    match pair {
        Some(p) => Some((p.0@, p.1@)),
        None => None,
    }
}

/// A geometry, where there is one, with its texts as sequences of characters.
pub open spec fn view_geometry(geometry: Option<GeometryFields>) -> Option<GeometryFieldsView> {
    match geometry {
        Some(fields) => Some(fields@),
        None => None,
    }
}

/// The geometry that is kept: the position and the size side by side where both
/// are known, and none where either is missing.
pub open spec fn spec_geometry_fields(
    position: Option<(Seq<char>, Seq<char>)>,
    size: Option<(Seq<char>, Seq<char>)>,
) -> Option<GeometryFieldsView> {
    match (position, size) {
        (Some(p), Some(s)) => Some(GeometryFieldsView { x: p.0, y: p.1, width: s.0, height: s.1 }),
        _ => None,
    }
}

/// The geometry to keep, given the window's position and its size as text, as
/// far as they are known. A position without a size, or a size without a
/// position, gives none.
pub fn geometry_fields(
    position: Option<(String, String)>,
    size: Option<(String, String)>,
) -> (r: Option<GeometryFields>)
    ensures
        view_geometry(r) == spec_geometry_fields(view_pair(position), view_pair(size)),
{
    match position {
        Some((x, y)) => match size {
            Some((width, height)) => Some(GeometryFields { x, y, width, height }),
            None => None,
        },
        None => None,
    }
}

/// Where the settings file lies, as the components of its path, given the
/// platform and the directories that the environment names.
pub fn settings_location(
    windows: bool,
    appdata: Option<&str>,
    xdg_config_home: Option<&str>,
    home: Option<&str>,
) -> (r: Option<Vec<String>>)
    ensures
        r.deep_view() == spec_settings_location(
            windows,
            appdata.deep_view(),
            xdg_config_home.deep_view(),
            home.deep_view(),
        ),
{
    let mut parts: Vec<String> = Vec::new();
    if windows {
        match appdata {
            Some(base) => {
                parts.push(base.to_owned());
            },
            None => {
                return None;
            },
        }
    } else {
        match xdg_config_home {
            Some(base) => {
                parts.push(base.to_owned());
            },
            None => match home {
                Some(base) => {
                    parts.push(base.to_owned());
                    parts.push(".config".to_owned());
                },
                None => {
                    return None;
                },
            },
        }
    }
    parts.push("entitan".to_owned());
    parts.push("settings.txt".to_owned());
    let r = Some(parts);
    assert(r.deep_view()->Some_0 =~= spec_settings_location(
        windows,
        appdata.deep_view(),
        xdg_config_home.deep_view(),
        home.deep_view(),
    )->Some_0);
    r
}

} // verus!
