//! The preferred locale: a short identifier of ASCII letters that the two locale
//! settings of the configuration file are synchronised to.

use vstd::prelude::*;
use crate::text::{
    eq_ignore_ascii_case, from_chars, is_ascii_letter, spec_eq_ignore_ascii_case,
    spec_is_ascii_letter, to_chars,
};

verus! {

/// The longest preferred locale, in characters.
pub const MAX_LOCALE_LEN: usize = 4;

/// The locale that stands in when the input holds no letter.
pub open spec fn default_locale_text() -> Seq<char> {
    "enUS"@
}

/// The test that keeps ASCII letters.
pub open spec fn letter_pred() -> spec_fn(char) -> bool {
    |c: char| spec_is_ascii_letter(c)
}

/// Whether `s` can stand as a preferred locale: one to four ASCII letters.
pub open spec fn spec_is_valid_locale(s: Seq<char>) -> bool {
    &&& 0 < s.len() <= MAX_LOCALE_LEN
    &&& forall|i: int| 0 <= i < s.len() ==> spec_is_ascii_letter(#[trigger] s[i])
}

/// The first four ASCII letters of `s`, or all of them where there are fewer.
pub open spec fn spec_filtered(s: Seq<char>) -> Seq<char> {
    let letters = s.filter(letter_pred());
    if letters.len() > MAX_LOCALE_LEN {
        letters.take(MAX_LOCALE_LEN as int)
    } else {
        letters
    }
}

/// The preferred locale that the input `s` stands for.
pub open spec fn spec_normalize(s: Seq<char>) -> Seq<char> {
    if spec_filtered(s).len() == 0 {
        default_locale_text()
    } else {
        spec_filtered(s)
    }
}

/// How an input relates to the preferred locale that it was normalised to.
#[derive(Clone, Copy, Debug, PartialEq, Eq, Structural)]
pub enum Normalization {
    /// The input was a preferred locale already.
    Kept,
    /// The input was empty; the default took its place.
    Defaulted,
    /// The input was not empty and held no letter; the default took its place.
    Reset,
    /// Characters were dropped from the input.
    Filtered,
}

/// How `s` relates to what it is normalised to.
pub open spec fn spec_normalization(s: Seq<char>) -> Normalization {
    if spec_filtered(s).len() == 0 {
        if s.len() == 0 {
            Normalization::Defaulted
        } else {
            Normalization::Reset
        }
    } else if spec_filtered(s) != s {
        Normalization::Filtered
    } else {
        Normalization::Kept
    }
}

/// What is reported to the user after a normalisation, if anything.
pub open spec fn spec_normalization_notice(n: Normalization) -> Option<Seq<char>> {
    match n {
        Normalization::Reset => Some("Preferred locale invalid; reset to enUS"@),
        Normalization::Filtered => Some("Preferred locale filtered to letters only (max 4)"@),
        _ => None,
    }
}

/// Filtering leaves a sequence alone when all of it passes.
pub proof fn lemma_filter_all_pass(s: Seq<char>)
    requires
        forall|i: int| 0 <= i < s.len() ==> spec_is_ascii_letter(#[trigger] s[i]),
    ensures
        s.filter(letter_pred()) == s,
    decreases s.len(),
{
    reveal(Seq::filter);
    if s.len() > 0 {
        lemma_filter_all_pass(s.drop_last());
        assert(s.drop_last().push(s.last()) =~= s);
    }
}

/// A preferred locale is normalised to itself.
pub proof fn lemma_normalize_valid(s: Seq<char>)
    requires
        spec_is_valid_locale(s),
    ensures
        spec_normalize(s) == s,
        spec_normalization(s) == Normalization::Kept,
{
    lemma_filter_all_pass(s);
}

/// Normalising gives a preferred locale: one to four ASCII letters.
pub proof fn lemma_normalize_is_valid(s: Seq<char>)
    ensures
        spec_is_valid_locale(spec_normalize(s)),
{
    let f = spec_filtered(s);
    if f.len() == 0 {
        reveal_strlit("enUS");
    } else {
        let letters = s.filter(letter_pred());
        assert forall|i: int| 0 <= i < f.len() implies spec_is_ascii_letter(#[trigger] f[i]) by {
            s.lemma_filter_pred(letter_pred(), i);
            assert(f[i] == letters[i]);
        }
    }
}

/// A preferred locale holds neither a double quote nor a line feed.
pub proof fn lemma_valid_locale_is_plain(s: Seq<char>)
    requires
        spec_is_valid_locale(s),
    ensures
        forall|j: int| 0 <= j < s.len() ==> s[j] != '"',
        forall|j: int| 0 <= j < s.len() ==> s[j] != '\n',
{
    assert forall|j: int| 0 <= j < s.len() implies s[j] != '"' && s[j] != '\n' by {
        assert(spec_is_ascii_letter(s[j]));
    }
}

/// Normalising is idempotent, for every input: a second pass changes nothing,
/// and what comes out is one to four ASCII letters.
pub proof fn lemma_normalize_idempotent(s: Seq<char>)
    ensures
        spec_normalize(spec_normalize(s)) == spec_normalize(s),
        spec_is_valid_locale(spec_normalize(s)),
{
    lemma_normalize_is_valid(s);
    lemma_normalize_valid(spec_normalize(s));
}

/// The default preferred locale.
pub fn default_locale() -> (s: String)
    ensures
        s@ == default_locale_text(),
{
    "enUS".to_owned()
}

/// Whether `s` can stand as a preferred locale: one to four ASCII letters.
pub fn is_valid_locale(s: &str) -> (r: bool)
    ensures
        r == spec_is_valid_locale(s@),
{
    let chars = to_chars(s);
    if chars.len() == 0 || chars.len() > MAX_LOCALE_LEN {
        return false;
    }
    let mut i: usize = 0;
    while i < chars.len()
        invariant
            i <= chars.len(),
            chars@ == s@,
            forall|j: int| 0 <= j < i ==> spec_is_ascii_letter(#[trigger] chars@[j]),
        decreases chars.len() - i,
    {
        if !is_ascii_letter(chars[i]) {
            assert(!spec_is_ascii_letter(s@[i as int]));
            return false;
        }
        i = i + 1;
    }
    true
}

/// The first four ASCII letters of `chars`, or all of them where there are fewer.
fn filtered(chars: &Vec<char>) -> (out: Vec<char>)
    ensures
        out@ == spec_filtered(chars@),
{
    let mut out: Vec<char> = Vec::new();
    let mut i: usize = 0;
    assert(chars@.take(0) =~= Seq::<char>::empty());
    assert(Seq::<char>::empty().filter(letter_pred()) =~= Seq::<char>::empty()) by {
        reveal(Seq::filter);
    }
    while i < chars.len() && out.len() < MAX_LOCALE_LEN
        invariant
            i <= chars.len(),
            out.len() <= MAX_LOCALE_LEN,
            out@ == chars@.take(i as int).filter(letter_pred()),
        decreases chars.len() - i,
    {
        proof {
            let head = chars@.take(i as int);
            assert(chars@.take(i + 1) =~= head.push(chars@[i as int]));
            head.lemma_filter_push(chars@[i as int], letter_pred());
        }
        if is_ascii_letter(chars[i]) {
            out.push(chars[i]);
        }
        i = i + 1;
    }
    proof {
        let head = chars@.take(i as int);
        let tail = chars@.skip(i as int);
        assert(head + tail =~= chars@);
        Seq::filter_distributes_over_add(head, tail, letter_pred());
        let letters = chars@.filter(letter_pred());
        assert(letters == out@ + tail.filter(letter_pred()));
        if i == chars.len() {
            assert(tail =~= Seq::<char>::empty());
            assert(tail.filter(letter_pred()) =~= Seq::<char>::empty()) by {
                reveal(Seq::filter);
            }
            assert(letters =~= out@);
        } else {
            assert(out@.len() == MAX_LOCALE_LEN);
            if letters.len() > MAX_LOCALE_LEN {
                assert(letters.take(MAX_LOCALE_LEN as int) =~= out@);
            } else {
                assert(letters =~= out@);
            }
        }
    }
    out
}

/// Normalises a preferred locale as the user typed it: keeps the first four ASCII
/// letters, and falls back to the default where there is none. Says also how the
/// input relates to the result.
pub fn normalize_preferred(input: &str) -> (r: (String, Normalization))
    ensures
        r.0@ == spec_normalize(input@),
        r.1 == spec_normalization(input@),
        spec_is_valid_locale(r.0@),
{
    proof {
        lemma_normalize_is_valid(input@);
    }
    let chars = to_chars(input);
    let kept = filtered(&chars);
    if kept.len() == 0 {
        if chars.len() == 0 {
            (default_locale(), Normalization::Defaulted)
        } else {
            (default_locale(), Normalization::Reset)
        }
    } else if kept.len() != chars.len() {
        (from_chars(&kept), Normalization::Filtered)
    } else {
        proof {
            // Of equal length, the letters that were kept are the whole input.
            lemma_filter_full_length(chars@);
        }
        (from_chars(&kept), Normalization::Kept)
    }
}

/// A filter that drops nothing by count drops nothing at all.
pub proof fn lemma_filter_full_length(s: Seq<char>)
    requires
        s.filter(letter_pred()).len() >= s.len(),
    ensures
        s.filter(letter_pred()) == s,
    decreases s.len(),
{
    reveal(Seq::filter);
    if s.len() > 0 {
        let head = s.drop_last();
        head.lemma_filter_len(letter_pred());
        lemma_filter_full_length(head);
        assert(head.push(s.last()) =~= s);
    }
}

/// What is reported to the user after a normalisation, if anything.
pub fn normalization_notice(n: Normalization) -> (r: Option<String>)
    ensures
        r.deep_view() == spec_normalization_notice(n),
{
    match n {
        Normalization::Reset => Some("Preferred locale invalid; reset to enUS".to_owned()),
        Normalization::Filtered => Some(
            "Preferred locale filtered to letters only (max 4)".to_owned(),
        ),
        _ => None,
    }
}

/// Whether a locale read from the configuration file is the preferred one, letter
/// case aside. A setting that is missing matches nothing.
pub open spec fn spec_locale_matches(current: Option<Seq<char>>, preferred: Seq<char>) -> bool {
    match current {
        Some(value) => spec_eq_ignore_ascii_case(value, preferred),
        None => false,
    }
}

/// Whether a locale read from the configuration file is the preferred one, letter
/// case aside. A setting that is missing matches nothing.
pub fn locale_matches(current: &Option<String>, preferred: &str) -> (r: bool)
    ensures
        r == spec_locale_matches(current.deep_view(), preferred@),
{
    match current {
        Some(value) => {
            let a = to_chars(value.as_str());
            let b = to_chars(preferred);
            eq_ignore_ascii_case(&a, &b)
        },
        None => false,
    }
}

} // verus!
