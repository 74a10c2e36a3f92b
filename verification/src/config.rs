//! The configuration file's two locale settings: how they are read out of the
//! file's text and how the text is rewritten to a new locale.
//!
//! A setting is a line whose text, white space at both ends aside, begins with
//! `SET audioLocale` or `SET textLocale`; its value is what stands between the
//! first two double quotes of that text.

use vstd::prelude::*;
use crate::text::{
    find, from_chars, lemma_find_at, lemma_lines_hold_no_line_feed, lemma_lines_of_unlines,
    lemma_trim_nothing, lemma_trim_strip_cr, lines, slice, spec_find, spec_lines,
    spec_no_line_feed, spec_strip_cr, spec_trim, spec_unlines, starts_with, strip_cr_fn,
    to_chars, trim, unlines, view_lines,
};

verus! {

/// What the audio setting's line begins with.
pub open spec fn audio_key() -> Seq<char> {
    "SET audioLocale"@
}

/// What the text setting's line begins with.
pub open spec fn text_key() -> Seq<char> {
    "SET textLocale"@
}

/// What stands between the first two double quotes of `s`.
pub open spec fn spec_quoted(s: Seq<char>) -> Option<Seq<char>> {
    match spec_find(s, '"') {
        None => None,
        Some(open) => {
            let rest = s.skip(open + 1);
            match spec_find(rest, '"') {
                None => None,
                Some(close) => Some(rest.take(close)),
            }
        },
    }
}

/// Whether `line` is a line of the setting `key`.
pub open spec fn spec_has_key(line: Seq<char>, key: Seq<char>) -> bool {
    key.is_prefix_of(spec_trim(line))
}

/// The value that `line` gives the setting `key`, if it is a line of that setting
/// and holds a quoted value.
pub open spec fn spec_line_value(line: Seq<char>, key: Seq<char>) -> Option<Seq<char>> {
    if spec_has_key(line, key) {
        spec_quoted(spec_trim(line))
    } else {
        None
    }
}

/// The value that the last of `lines` to give the setting `key` a value gives it.
pub open spec fn spec_last_value(lines: Seq<Seq<char>>, key: Seq<char>) -> Option<Seq<char>>
    decreases lines.len(),
{
    if lines.len() == 0 {
        None
    } else {
        match spec_line_value(lines.last(), key) {
            Some(value) => Some(value),
            None => spec_last_value(lines.drop_last(), key),
        }
    }
}

/// The two locale settings as read from a configuration file.
#[derive(Clone, Debug, PartialEq, Eq)]
pub struct LocaleValues {
    /// The audio locale, where the file sets one.
    pub audio: Option<String>,
    /// The text locale, where the file sets one.
    pub text: Option<String>,
}

/// [`LocaleValues`] with its texts as sequences of characters.
pub struct LocaleValuesView {
    pub audio: Option<Seq<char>>,
    pub text: Option<Seq<char>>,
}

impl View for LocaleValues {
    type V = LocaleValuesView;

    open spec fn view(&self) -> LocaleValuesView {
        LocaleValuesView { audio: self.audio.deep_view(), text: self.text.deep_view() }
    }
}

/// The two locale settings that a file of the given contents holds. Where a
/// setting has several lines, the last one with a value counts.
pub open spec fn spec_parse(contents: Seq<char>) -> LocaleValuesView {
    LocaleValuesView {
        audio: spec_last_value(spec_lines(contents), audio_key()),
        text: spec_last_value(spec_lines(contents), text_key()),
    }
}

/// The line that sets `key` to `locale`.
pub open spec fn spec_key_line(key: Seq<char>, locale: Seq<char>) -> Seq<char> {
    key + " \""@ + locale + "\""@
}

/// `line` as it stands after the rewrite: a line of either setting is replaced by
/// the line that sets it to `locale`, any other line is kept.
pub open spec fn spec_rewrite_line(line: Seq<char>, locale: Seq<char>) -> Seq<char> {
    if spec_has_key(line, audio_key()) {
        spec_key_line(audio_key(), locale)
    } else if spec_has_key(line, text_key()) {
        spec_key_line(text_key(), locale)
    } else {
        line
    }
}

/// Whether one of `lines` is a line of the setting `key`.
pub open spec fn spec_mentions(lines: Seq<Seq<char>>, key: Seq<char>) -> bool {
    exists|i: int| 0 <= i < lines.len() && spec_has_key(#[trigger] lines[i], key)
}

/// The lines of a file after the rewrite to `locale`: each line rewritten in its
/// place, then a line for the audio setting if none was there, then one for the
/// text setting if none was there.
pub open spec fn spec_rewrite_lines(lines: Seq<Seq<char>>, locale: Seq<char>) -> Seq<Seq<char>> {
    let rewritten = lines.map_values(|line: Seq<char>| spec_rewrite_line(line, locale));
    let with_audio = if spec_mentions(lines, audio_key()) {
        rewritten
    } else {
        rewritten.push(spec_key_line(audio_key(), locale))
    };
    if spec_mentions(lines, text_key()) {
        with_audio
    } else {
        with_audio.push(spec_key_line(text_key(), locale))
    }
}

/// The contents of a file after both settings were rewritten to `locale`.
pub open spec fn spec_rewrite(contents: Seq<char>, locale: Seq<char>) -> Seq<char> {
    spec_unlines(spec_rewrite_lines(spec_lines(contents), locale))
}

/// No text begins with both keys.
pub proof fn lemma_keys_exclude(s: Seq<char>)
    ensures
        !(audio_key().is_prefix_of(s) && text_key().is_prefix_of(s)),
{
    reveal_strlit("SET audioLocale");
    reveal_strlit("SET textLocale");
    if audio_key().is_prefix_of(s) && text_key().is_prefix_of(s) {
        assert(s.subrange(0, audio_key().len() as int)[4] == 'a');
        assert(s.subrange(0, text_key().len() as int)[4] == 't');
    }
}

/// What stands between the first two double quotes of `s`.
fn quoted(s: &Vec<char>) -> (r: Option<Vec<char>>)
    ensures
        match r {
            Some(value) => spec_quoted(s@) == Some(value@),
            None => spec_quoted(s@) is None,
        },
{
    match find(s, '"') {
        None => None,
        Some(open) => {
            let rest = slice(s, open + 1, s.len());
            assert(rest@ =~= s@.skip(open + 1));
            match find(&rest, '"') {
                None => None,
                Some(close) => {
                    let value = slice(&rest, 0, close);
                    assert(value@ =~= rest@.take(close as int));
                    Some(value)
                },
            }
        },
    }
}

/// The line that sets `key` to `locale`.
fn key_line(key: &Vec<char>, locale: &Vec<char>) -> (line: Vec<char>)
    ensures
        line@ == spec_key_line(key@, locale@),
{
    proof {
        reveal_strlit(" \"");
        reveal_strlit("\"");
    }
    let mut line: Vec<char> = Vec::new();
    let mut i: usize = 0;
    while i < key.len()
        invariant
            i <= key.len(),
            line@ == key@.take(i as int),
        decreases key.len() - i,
    {
        line.push(key[i]);
        i = i + 1;
    }
    line.push(' ');
    line.push('"');
    let ghost head = line@;
    assert(head =~= key@ + " \""@);
    let mut j: usize = 0;
    while j < locale.len()
        invariant
            j <= locale.len(),
            line@ == head + locale@.take(j as int),
        decreases locale.len() - j,
    {
        line.push(locale[j]);
        j = j + 1;
    }
    line.push('"');
    assert(line@ =~= key@ + " \""@ + locale@ + "\""@);
    line
}

/// Reads the two locale settings out of the contents of a configuration file.
/// Where a setting has several lines, the last one with a value counts; a setting
/// without such a line is `None`.
pub fn parse_locales(contents: &str) -> (values: LocaleValues)
    ensures
        values@ == spec_parse(contents@),
{
    let chars = to_chars(contents);
    let all = lines(&chars);
    let audio = to_chars("SET audioLocale");
    let text = to_chars("SET textLocale");
    let mut values = LocaleValues { audio: None, text: None };
    let mut i: usize = 0;
    assert(view_lines(all@).take(0) =~= Seq::<Seq<char>>::empty());
    while i < all.len()
        invariant
            i <= all.len(),
            audio@ == audio_key(),
            text@ == text_key(),
            values.audio.deep_view() == spec_last_value(
                view_lines(all@).take(i as int),
                audio_key(),
            ),
            values.text.deep_view() == spec_last_value(view_lines(all@).take(i as int), text_key()),
        decreases all.len() - i,
    {
        let trimmed = trim(&all[i]);
        proof {
            let seen = view_lines(all@).take(i + 1);
            assert(seen.last() == all@[i as int]@);
            assert(seen.drop_last() =~= view_lines(all@).take(i as int));
            lemma_keys_exclude(trimmed@);
        }
        if starts_with(&trimmed, &audio) {
            match quoted(&trimmed) {
                Some(value) => {
                    values.audio = Some(from_chars(&value));
                },
                None => {},
            }
        } else if starts_with(&trimmed, &text) {
            match quoted(&trimmed) {
                Some(value) => {
                    values.text = Some(from_chars(&value));
                },
                None => {},
            }
        }
        i = i + 1;
    }
    assert(view_lines(all@).take(all.len() as int) =~= view_lines(all@));
    values
}

/// Rewrites the contents of a configuration file so that both settings read
/// `locale`. Every line of either setting is replaced where it stands; a setting
/// without a line gets one at the end, the audio setting first. All other lines
/// are kept, in their order. Every line of the result ends in a line feed.
pub fn rewrite_locales(contents: &str, locale: &str) -> (rewritten: String)
    ensures
        rewritten@ == spec_rewrite(contents@, locale@),
{
    let chars = to_chars(contents);
    let wanted = to_chars(locale);
    let all = lines(&chars);
    let audio = to_chars("SET audioLocale");
    let text = to_chars("SET textLocale");
    let mut out: Vec<Vec<char>> = Vec::new();
    let mut found_audio = false;
    let mut found_text = false;
    let ghost rewrite = |line: Seq<char>| spec_rewrite_line(line, locale@);
    let mut i: usize = 0;
    assert(view_lines(all@).take(0).map_values(rewrite) =~= view_lines(out@));
    while i < all.len()
        invariant
            i <= all.len(),
            audio@ == audio_key(),
            text@ == text_key(),
            wanted@ == locale@,
            rewrite == |line: Seq<char>| spec_rewrite_line(line, locale@),
            view_lines(out@) == view_lines(all@).take(i as int).map_values(rewrite),
            found_audio == spec_mentions(view_lines(all@).take(i as int), audio_key()),
            found_text == spec_mentions(view_lines(all@).take(i as int), text_key()),
        decreases all.len() - i,
    {
        let trimmed = trim(&all[i]);
        let ghost before = view_lines(all@).take(i as int);
        let ghost after = view_lines(all@).take(i + 1);
        let ghost old_out = view_lines(out@);
        proof {
            lemma_keys_exclude(trimmed@);
        }
        let line = if starts_with(&trimmed, &audio) {
            found_audio = true;
            key_line(&audio, &wanted)
        } else if starts_with(&trimmed, &text) {
            found_text = true;
            key_line(&text, &wanted)
        } else {
            slice(&all[i], 0, all[i].len())
        };
        proof {
            let current = all@[i as int]@;
            assert(current.subrange(0, current.len() as int) =~= current);
            assert(line@ == spec_rewrite_line(current, locale@));
            assert(after =~= before.push(current));
            assert(after.map_values(rewrite) =~= before.map_values(rewrite).push(line@));
            assert(after[i as int] == current);
            assert forall|key: Seq<char>|
                spec_mentions(after, key) == (spec_mentions(before, key) || spec_has_key(
                    current,
                    key,
                )) by {
                if spec_mentions(before, key) {
                    let k = choose|k: int| 0 <= k < before.len() && spec_has_key(before[k], key);
                    assert(after[k] == before[k]);
                }
                if spec_mentions(after, key) {
                    let k = choose|k: int| 0 <= k < after.len() && spec_has_key(after[k], key);
                    if k < i {
                        assert(before[k] == after[k]);
                    }
                }
            }
        }
        out.push(line);
        assert(view_lines(out@) =~= old_out.push(line@));
        i = i + 1;
    }
    assert(view_lines(all@).take(all.len() as int) =~= view_lines(all@));
    if !found_audio {
        let line = key_line(&audio, &wanted);
        let ghost old_out = view_lines(out@);
        out.push(line);
        assert(view_lines(out@) =~= old_out.push(line@));
    }
    if !found_text {
        let line = key_line(&text, &wanted);
        let ghost old_out = view_lines(out@);
        out.push(line);
        assert(view_lines(out@) =~= old_out.push(line@));
    }
    let joined = unlines(&out);
    from_chars(&joined)
}

/// Whether `s` holds no double quote.
pub open spec fn spec_no_quote(s: Seq<char>) -> bool {
    forall|j: int| 0 <= j < s.len() ==> s[j] != '"'
}

/// Whether `key` is one of the two settings' keys.
pub open spec fn spec_is_key(key: Seq<char>) -> bool {
    key == audio_key() || key == text_key()
}

/// The line that sets a key to a locale without a double quote is a line of that
/// setting and of no other, and gives it that locale.
pub proof fn lemma_key_line(key: Seq<char>, locale: Seq<char>)
    requires
        spec_is_key(key),
        spec_no_quote(locale),
    ensures
        spec_trim(spec_key_line(key, locale)) == spec_key_line(key, locale),
        forall|other: Seq<char>|
            spec_is_key(other) ==> (#[trigger] spec_has_key(spec_key_line(key, locale), other)
                <==> other == key),
        spec_line_value(spec_key_line(key, locale), key) == Some(locale),
        spec_no_line_feed(locale) ==> spec_no_line_feed(spec_key_line(key, locale)),
{
    reveal_strlit("SET audioLocale");
    reveal_strlit("SET textLocale");
    reveal_strlit(" \"");
    reveal_strlit("\"");
    let line = spec_key_line(key, locale);
    let n = key.len() as int;
    assert(line.len() == n + 3 + locale.len());
    assert(line[0] == key[0]);
    assert(line.last() == '"');
    lemma_trim_nothing(line);
    assert(line.subrange(0, n) =~= key);
    assert(key.is_prefix_of(line));
    assert forall|other: Seq<char>| spec_is_key(other) implies (#[trigger] spec_has_key(
        line,
        other,
    ) <==> other == key) by {
        lemma_keys_exclude(line);
    }
    // The first double quote is the one after the key and the blank.
    assert forall|j: int| 0 <= j < n + 1 implies line[j] != '"' by {
        if j < n {
            assert(line[j] == key[j]);
        }
    }
    assert(line[n + 1] == '"');
    lemma_find_at(line, '"', n + 1);
    let rest = line.skip(n + 2);
    assert(rest =~= locale.push('"'));
    assert forall|j: int| 0 <= j < locale.len() implies rest[j] != '"' by {
        assert(rest[j] == locale[j]);
    }
    lemma_find_at(rest, '"', locale.len() as int);
    assert(rest.take(locale.len() as int) =~= locale);
    if spec_no_line_feed(locale) {
        assert forall|j: int| 0 <= j < line.len() implies line[j] != '\n' by {
            if j < n {
                assert(line[j] == key[j]);
            } else if n + 2 <= j < n + 2 + locale.len() {
                assert(line[j] == locale[j - n - 2]);
            }
        }
    }
}

/// Reading lines that were written out loses nothing that bears on a setting: a
/// carriage return at a line's end is white space, which is trimmed away.
pub proof fn lemma_last_value_strip_cr(lines: Seq<Seq<char>>, key: Seq<char>)
    ensures
        spec_last_value(lines.map_values(strip_cr_fn()), key) == spec_last_value(lines, key),
    decreases lines.len(),
{
    let stripped = lines.map_values(strip_cr_fn());
    if lines.len() > 0 {
        lemma_trim_strip_cr(lines.last());
        assert(stripped.last() == spec_strip_cr(lines.last()));
        assert(stripped.drop_last() =~= lines.drop_last().map_values(strip_cr_fn()));
        lemma_last_value_strip_cr(lines.drop_last(), key);
    }
}

/// Where every line of a setting gives it the same value, and there is such a
/// line, that value is the setting's.
pub proof fn lemma_last_value_uniform(lines: Seq<Seq<char>>, key: Seq<char>, value: Seq<char>)
    requires
        spec_mentions(lines, key),
        forall|i: int|
            0 <= i < lines.len() && spec_has_key(#[trigger] lines[i], key) ==> spec_line_value(
                lines[i],
                key,
            ) == Some(value),
    ensures
        spec_last_value(lines, key) == Some(value),
    decreases lines.len(),
{
    let k = choose|k: int| 0 <= k < lines.len() && spec_has_key(#[trigger] lines[k], key);
    if !spec_has_key(lines.last(), key) {
        let head = lines.drop_last();
        assert(head[k] == lines[k]);
        assert forall|i: int|
            0 <= i < head.len() && spec_has_key(#[trigger] head[i], key) implies spec_line_value(
            head[i],
            key,
        ) == Some(value) by {
            assert(head[i] == lines[i]);
        }
        lemma_last_value_uniform(head, key, value);
    }
}

/// What the rewritten lines are, line by line: as many lines as before or up to
/// two more; a line of a setting now sets it to `locale`; every other line stands
/// unchanged in its place.
pub proof fn lemma_rewrite_lines_shape(lines: Seq<Seq<char>>, locale: Seq<char>)
    ensures
        lines.len() <= spec_rewrite_lines(lines, locale).len() <= lines.len() + 2,
        forall|i: int|
            0 <= i < lines.len() ==> #[trigger] spec_rewrite_lines(lines, locale)[i]
                == spec_rewrite_line(lines[i], locale),
        forall|i: int|
            0 <= i < lines.len() && !spec_has_key(lines[i], audio_key()) && !spec_has_key(
                lines[i],
                text_key(),
            ) ==> #[trigger] spec_rewrite_lines(lines, locale)[i] == lines[i],
        forall|i: int|
            lines.len() <= i < spec_rewrite_lines(lines, locale).len() ==> {
                ||| #[trigger] spec_rewrite_lines(lines, locale)[i] == spec_key_line(
                    audio_key(),
                    locale,
                )
                ||| spec_rewrite_lines(lines, locale)[i] == spec_key_line(text_key(), locale)
            },
        spec_mentions(spec_rewrite_lines(lines, locale), audio_key()) || !spec_no_quote(locale),
        spec_mentions(spec_rewrite_lines(lines, locale), text_key()) || !spec_no_quote(locale),
{
    let out = spec_rewrite_lines(lines, locale);
    if spec_no_quote(locale) {
        lemma_key_line(audio_key(), locale);
        lemma_key_line(text_key(), locale);
        assert(spec_is_key(audio_key()) && spec_is_key(text_key()));
        if spec_mentions(lines, audio_key()) {
            let k = choose|k: int|
                0 <= k < lines.len() && spec_has_key(#[trigger] lines[k], audio_key());
            assert(spec_has_key(out[k], audio_key()));
        } else {
            assert(spec_has_key(out[lines.len() as int], audio_key()));
        }
        if spec_mentions(lines, text_key()) {
            let k = choose|k: int|
                0 <= k < lines.len() && spec_has_key(#[trigger] lines[k], text_key());
            lemma_keys_exclude(spec_trim(lines[k]));
            assert(spec_has_key(out[k], text_key()));
        } else {
            assert(spec_has_key(out[out.len() - 1], text_key()));
        }
    }
}

/// Rewriting a file to a locale and reading it back gives that locale for both
/// settings, whatever the file held before, for every locale that holds neither a
/// double quote nor a line feed.
pub proof fn lemma_rewrite_then_parse(contents: Seq<char>, locale: Seq<char>)
    requires
        spec_no_quote(locale),
        spec_no_line_feed(locale),
    ensures
        spec_parse(spec_rewrite(contents, locale)) == (LocaleValuesView {
            audio: Some(locale),
            text: Some(locale),
        }),
{
    let before = spec_lines(contents);
    let out = spec_rewrite_lines(before, locale);
    lemma_lines_hold_no_line_feed(contents);
    lemma_rewrite_lines_shape(before, locale);
    lemma_key_line(audio_key(), locale);
    lemma_key_line(text_key(), locale);
    assert(spec_is_key(audio_key()) && spec_is_key(text_key()));
    assert forall|i: int| 0 <= i < out.len() implies spec_no_line_feed(#[trigger] out[i]) by {
        if i < before.len() {
            assert(out[i] == spec_rewrite_line(before[i], locale));
            assert(spec_no_line_feed(before[i]));
        }
    }
    lemma_lines_of_unlines(out);
    lemma_last_value_strip_cr(out, audio_key());
    lemma_last_value_strip_cr(out, text_key());
    assert forall|i: int|
        0 <= i < out.len() && spec_has_key(#[trigger] out[i], audio_key()) implies spec_line_value(
        out[i],
        audio_key(),
    ) == Some(locale) by {
        if i < before.len() {
            assert(out[i] == spec_rewrite_line(before[i], locale));
        }
    }
    assert forall|i: int|
        0 <= i < out.len() && spec_has_key(#[trigger] out[i], text_key()) implies spec_line_value(
        out[i],
        text_key(),
    ) == Some(locale) by {
        if i < before.len() {
            assert(out[i] == spec_rewrite_line(before[i], locale));
            lemma_keys_exclude(spec_trim(before[i]));
        }
    }
    lemma_last_value_uniform(out, audio_key(), locale);
    lemma_last_value_uniform(out, text_key(), locale);
}

} // verus!
