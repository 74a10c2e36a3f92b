//! Characters and character sequences: the vocabulary the rest of the crate is stated in.
//!
//! Text is modelled as `Seq<char>`. The executable functions work on `Vec<char>`
//! and are proved against the spec functions of the same name.

use vstd::prelude::*;

verus! {

/// `String::push` appends exactly the given character.
pub assume_specification[ String::push ](s: &mut String, c: char)
    ensures
        final(s)@ == old(s)@.push(c),
;

/// Whether `c` has the Unicode `White_Space` property.
pub open spec fn spec_is_whitespace(c: char) -> bool {
    ||| '\u{9}' <= c <= '\u{D}'
    ||| c == ' '
    ||| c == '\u{85}'
    ||| c == '\u{A0}'
    ||| c == '\u{1680}'
    ||| '\u{2000}' <= c <= '\u{200A}'
    ||| c == '\u{2028}'
    ||| c == '\u{2029}'
    ||| c == '\u{202F}'
    ||| c == '\u{205F}'
    ||| c == '\u{3000}'
}

/// Whether `c` is one of `A`..`Z` or `a`..`z`.
pub open spec fn spec_is_ascii_letter(c: char) -> bool {
    'A' <= c <= 'Z' || 'a' <= c <= 'z'
}

/// The code point of `c`, with `A`..`Z` read as `a`..`z`.
pub open spec fn spec_lower_code(c: char) -> int {
    if 'A' <= c <= 'Z' {
        c as int + 32
    } else {
        c as int
    }
}

/// Position of the first occurrence of `c` in `s`.
pub open spec fn spec_find(s: Seq<char>, c: char) -> Option<int>
    decreases s.len(),
{
    if s.len() == 0 {
        None
    } else if s[0] == c {
        Some(0)
    } else {
        match spec_find(s.skip(1), c) {
            Some(i) => Some(i + 1),
            None => None,
        }
    }
}

/// `s` without its leading white space.
pub open spec fn spec_trim_start(s: Seq<char>) -> Seq<char>
    decreases s.len(),
{
    if s.len() > 0 && spec_is_whitespace(s[0]) {
        spec_trim_start(s.skip(1))
    } else {
        s
    }
}

/// `s` without its trailing white space.
pub open spec fn spec_trim_end(s: Seq<char>) -> Seq<char>
    decreases s.len(),
{
    if s.len() > 0 && spec_is_whitespace(s.last()) {
        spec_trim_end(s.drop_last())
    } else {
        s
    }
}

/// `s` without leading and trailing white space.
pub open spec fn spec_trim(s: Seq<char>) -> Seq<char> {
    spec_trim_end(spec_trim_start(s))
}

/// `s` without one trailing carriage return, if it ends in one.
pub open spec fn spec_strip_cr(s: Seq<char>) -> Seq<char> {
    if s.len() > 0 && s.last() == '\r' {
        s.drop_last()
    } else {
        s
    }
}

/// The lines of `s`. A line ends at a line feed, or at a carriage return directly
/// followed by a line feed; neither belongs to the line. Text after the last line
/// feed is a line of its own when it is not empty, and keeps a carriage return
/// that it ends in.
pub open spec fn spec_lines(s: Seq<char>) -> Seq<Seq<char>>
    decreases s.len(),
{
    if s.len() == 0 {
        Seq::empty()
    } else {
        match spec_find(s, '\n') {
            None => seq![s],
            Some(i) => if 0 <= i < s.len() {
                seq![spec_strip_cr(s.take(i))] + spec_lines(s.skip(i + 1))
            } else {
                seq![s]
            },
        }
    }
}

/// The lines held in `v`, each as a sequence of characters.
pub open spec fn view_lines(v: Seq<Vec<char>>) -> Seq<Seq<char>> {
    v.map_values(|l: Vec<char>| l@)
}

/// Every line followed by a line feed, one after the other.
pub open spec fn spec_unlines(lines: Seq<Seq<char>>) -> Seq<char> {
    lines.map_values(|l: Seq<char>| l.push('\n')).flatten()
}

/// The parts one after the other, with `sep` between each two.
pub open spec fn spec_join(parts: Seq<Seq<char>>, sep: Seq<char>) -> Seq<char>
    decreases parts.len(),
{
    if parts.len() == 0 {
        Seq::empty()
    } else if parts.len() == 1 {
        parts[0]
    } else {
        spec_join(parts.drop_last(), sep) + sep + parts.last()
    }
}

/// The parts that `sep` divides `s` into: one more than there are occurrences of
/// `sep`, each free of it.
pub open spec fn spec_split(s: Seq<char>, sep: char) -> Seq<Seq<char>>
    decreases s.len(),
{
    match spec_find(s, sep) {
        None => seq![s],
        Some(i) => if 0 <= i < s.len() {
            seq![s.take(i)] + spec_split(s.skip(i + 1), sep)
        } else {
            seq![s]
        },
    }
}

/// Whether `a` and `b` are equal once `A`..`Z` are read as `a`..`z`.
pub open spec fn spec_eq_ignore_ascii_case(a: Seq<char>, b: Seq<char>) -> bool {
    &&& a.len() == b.len()
    &&& forall|i: int|
        0 <= i < a.len() ==> spec_lower_code(#[trigger] a[i]) == spec_lower_code(b[i])
}

/// The decimal digit for `d`, which is below ten.
pub open spec fn spec_digit(d: nat) -> char {
    if d == 0 {
        '0'
    } else if d == 1 {
        '1'
    } else if d == 2 {
        '2'
    } else if d == 3 {
        '3'
    } else if d == 4 {
        '4'
    } else if d == 5 {
        '5'
    } else if d == 6 {
        '6'
    } else if d == 7 {
        '7'
    } else if d == 8 {
        '8'
    } else {
        '9'
    }
}

/// `n` written in decimal, without leading zeros.
pub open spec fn spec_decimal(n: nat) -> Seq<char>
    decreases n,
{
    if n < 10 {
        seq![spec_digit(n)]
    } else {
        spec_decimal(n / 10).push(spec_digit(n % 10))
    }
}

/// What `spec_find` returns: the first position that holds `c`, or `None` when no
/// position does.
pub proof fn lemma_find(s: Seq<char>, c: char)
    ensures
        match spec_find(s, c) {
            Some(i) => 0 <= i < s.len() && s[i] == c && forall|j: int| 0 <= j < i ==> s[j] != c,
            None => forall|j: int| 0 <= j < s.len() ==> s[j] != c,
        },
    decreases s.len(),
{
    if s.len() > 0 && s[0] != c {
        let t = s.skip(1);
        lemma_find(t, c);
        match spec_find(t, c) {
            Some(i) => {
                assert forall|j: int| 0 <= j < i + 1 implies s[j] != c by {
                    if j > 0 {
                        assert(t[j - 1] == s[j]);
                    }
                }
            },
            None => {
                assert forall|j: int| 0 <= j < s.len() implies s[j] != c by {
                    if j > 0 {
                        assert(t[j - 1] == s[j]);
                    }
                }
            },
        }
    }
}

/// A position that holds `c` with none before it that does is what `spec_find` returns.
pub proof fn lemma_find_at(s: Seq<char>, c: char, i: int)
    requires
        0 <= i < s.len(),
        s[i] == c,
        forall|j: int| 0 <= j < i ==> s[j] != c,
    ensures
        spec_find(s, c) == Some(i),
{
    lemma_find(s, c);
}

/// No occurrence of `c` means that `spec_find` returns `None`.
pub proof fn lemma_find_none(s: Seq<char>, c: char)
    requires
        forall|j: int| 0 <= j < s.len() ==> s[j] != c,
    ensures
        spec_find(s, c) is None,
{
    lemma_find(s, c);
}

/// Position of the first occurrence of `c` in `v`.
pub fn find(v: &Vec<char>, c: char) -> (r: Option<usize>)
    ensures
        match r {
            Some(i) => i < v.len() && spec_find(v@, c) == Some(i as int),
            None => spec_find(v@, c) is None,
        },
{
    let mut i: usize = 0;
    while i < v.len()
        invariant
            i <= v.len(),
            forall|j: int| 0 <= j < i ==> v@[j] != c,
        decreases v.len() - i,
    {
        if v[i] == c {
            proof {
                lemma_find_at(v@, c, i as int);
            }
            return Some(i);
        }
        i = i + 1;
    }
    proof {
        lemma_find_none(v@, c);
    }
    None
}

/// Whether `c` has the Unicode `White_Space` property.
pub fn is_whitespace(c: char) -> (r: bool)
    ensures
        r == spec_is_whitespace(c),
{
    ('\u{9}' <= c && c <= '\u{D}') || c == ' ' || c == '\u{85}' || c == '\u{A0}' || c
        == '\u{1680}' || ('\u{2000}' <= c && c <= '\u{200A}') || c == '\u{2028}' || c
        == '\u{2029}' || c == '\u{202F}' || c == '\u{205F}' || c == '\u{3000}'
}

/// Whether `c` is one of `A`..`Z` or `a`..`z`.
pub fn is_ascii_letter(c: char) -> (r: bool)
    ensures
        r == spec_is_ascii_letter(c),
{
    ('A' <= c && c <= 'Z') || ('a' <= c && c <= 'z')
}

/// The decimal digit for `d`.
pub fn digit(d: u8) -> (c: char)
    requires
        d < 10,
    ensures
        c == spec_digit(d as nat),
{
    if d == 0 {
        '0'
    } else if d == 1 {
        '1'
    } else if d == 2 {
        '2'
    } else if d == 3 {
        '3'
    } else if d == 4 {
        '4'
    } else if d == 5 {
        '5'
    } else if d == 6 {
        '6'
    } else if d == 7 {
        '7'
    } else if d == 8 {
        '8'
    } else {
        '9'
    }
}

/// Appends `n`, written in decimal, to `out`.
pub fn push_decimal(out: &mut String, n: u8)
    ensures
        final(out)@ == old(out)@ + spec_decimal(n as nat),
    decreases n,
{
    if n >= 10 {
        push_decimal(out, n / 10);
    }
    out.push(digit(n % 10));
    proof {
        if n >= 10 {
            assert(old(out)@ + spec_decimal(n as nat / 10).push(spec_digit(n as nat % 10)) =~= (old(
                out,
            )@ + spec_decimal(n as nat / 10)).push(spec_digit(n as nat % 10)));
        } else {
            assert(old(out)@ + seq![spec_digit(n as nat)] =~= old(out)@.push(spec_digit(n as nat)));
        }
    }
}

/// The code point of `c`, with `A`..`Z` read as `a`..`z`.
pub fn lower_code(c: char) -> (code: u32)
    ensures
        code == spec_lower_code(c),
{
    if 'A' <= c && c <= 'Z' {
        c as u32 + 32
    } else {
        c as u32
    }
}

/// Whether `a` and `b` are equal once `A`..`Z` are read as `a`..`z`.
pub fn eq_ignore_ascii_case(a: &Vec<char>, b: &Vec<char>) -> (r: bool)
    ensures
        r == spec_eq_ignore_ascii_case(a@, b@),
{
    if a.len() != b.len() {
        return false;
    }
    let mut i: usize = 0;
    while i < a.len()
        invariant
            i <= a.len() == b.len(),
            forall|j: int|
                0 <= j < i ==> spec_lower_code(#[trigger] a@[j]) == spec_lower_code(b@[j]),
        decreases a.len() - i,
    {
        if lower_code(a[i]) != lower_code(b[i]) {
            return false;
        }
        i = i + 1;
    }
    true
}

/// The characters of a string slice, in order.
pub fn to_chars(s: &str) -> (v: Vec<char>)
    ensures
        v@ == s@,
{
    let mut v: Vec<char> = Vec::new();
    for c in it: s.chars()
        invariant
            v@ == it.seq().take(it.index() as int),
    {
        v.push(c);
    }
    v
}

/// The string made of the given characters, in order.
pub fn from_chars(v: &Vec<char>) -> (s: String)
    ensures
        s@ == v@,
{
    let mut s = String::new();
    let mut i: usize = 0;
    while i < v.len()
        invariant
            i <= v.len(),
            s@ == v@.take(i as int),
        decreases v.len() - i,
    {
        s.push(v[i]);
        i = i + 1;
    }
    s
}

/// The characters of `v` from position `from` up to, not including, position `to`.
pub fn slice(v: &Vec<char>, from: usize, to: usize) -> (out: Vec<char>)
    requires
        from <= to <= v.len(),
    ensures
        out@ == v@.subrange(from as int, to as int),
{
    let mut out: Vec<char> = Vec::new();
    let mut i: usize = from;
    while i < to
        invariant
            from <= i <= to <= v.len(),
            out@ == v@.subrange(from as int, i as int),
        decreases to - i,
    {
        out.push(v[i]);
        i = i + 1;
    }
    out
}

/// Whether `v` begins with `prefix`.
pub fn starts_with(v: &Vec<char>, prefix: &Vec<char>) -> (r: bool)
    ensures
        r == prefix@.is_prefix_of(v@),
{
    if prefix.len() > v.len() {
        return false;
    }
    let mut i: usize = 0;
    while i < prefix.len()
        invariant
            i <= prefix.len() <= v.len(),
            forall|j: int| 0 <= j < i ==> prefix@[j] == v@[j],
        decreases prefix.len() - i,
    {
        if prefix[i] != v[i] {
            assert(v@.subrange(0, prefix@.len() as int)[i as int] != prefix@[i as int]);
            return false;
        }
        i = i + 1;
    }
    assert(prefix@ =~= v@.subrange(0, prefix@.len() as int));
    true
}

/// Dropping `n` leading white-space characters does not change what trimming the
/// start leaves.
pub proof fn lemma_trim_start_skip(s: Seq<char>, n: int)
    requires
        0 <= n <= s.len(),
        forall|j: int| 0 <= j < n ==> spec_is_whitespace(s[j]),
    ensures
        spec_trim_start(s) == spec_trim_start(s.skip(n)),
    decreases n,
{
    if n > 0 {
        let t = s.skip(1);
        assert forall|j: int| 0 <= j < n - 1 implies spec_is_whitespace(t[j]) by {
            assert(t[j] == s[j + 1]);
        }
        lemma_trim_start_skip(t, n - 1);
        assert(t.skip(n - 1) =~= s.skip(n));
    } else {
        assert(s.skip(0) =~= s);
    }
}

/// Dropping trailing white-space characters does not change what trimming the end
/// leaves.
pub proof fn lemma_trim_end_take(s: Seq<char>, n: int)
    requires
        0 <= n <= s.len(),
        forall|j: int| n <= j < s.len() ==> spec_is_whitespace(s[j]),
    ensures
        spec_trim_end(s) == spec_trim_end(s.take(n)),
    decreases s.len() - n,
{
    if n < s.len() {
        let t = s.drop_last();
        lemma_trim_end_take(t, n);
        assert(t.take(n) =~= s.take(n));
    } else {
        assert(s.take(n) =~= s);
    }
}

/// `v` without leading and trailing white space.
pub fn trim(v: &Vec<char>) -> (out: Vec<char>)
    ensures
        out@ == spec_trim(v@),
{
    let n = v.len();
    let mut a: usize = 0;
    while a < n && is_whitespace(v[a])
        invariant
            a <= n == v.len(),
            forall|j: int| 0 <= j < a ==> spec_is_whitespace(v@[j]),
        decreases n - a,
    {
        a = a + 1;
    }
    let mut b: usize = n;
    while b > a && is_whitespace(v[b - 1])
        invariant
            a <= b <= n == v.len(),
            forall|j: int| b <= j < n ==> spec_is_whitespace(v@[j]),
        decreases b,
    {
        b = b - 1;
    }
    proof {
        let s = v@;
        lemma_trim_start_skip(s, a as int);
        let t = s.skip(a as int);
        assert(spec_trim_start(t) == t);
        assert(spec_trim_start(s) == t);
        assert forall|j: int| b - a <= j < t.len() implies spec_is_whitespace(t[j]) by {
            assert(t[j] == s[j + a]);
        }
        lemma_trim_end_take(t, b - a);
        let u = t.take(b - a);
        assert(u =~= s.subrange(a as int, b as int));
        assert(spec_trim_end(u) == u) by {
            if u.len() > 0 {
                assert(u.last() == s[b - 1]);
            }
        }
    }
    slice(v, a, b)
}

/// The lines of `v`.
pub fn lines(v: &Vec<char>) -> (out: Vec<Vec<char>>)
    ensures
        view_lines(out@) == spec_lines(v@),
{
    let mut out: Vec<Vec<char>> = Vec::new();
    let mut start: usize = 0;
    let mut i: usize = 0;
    assert(v@.skip(0) =~= v@);
    assert(view_lines(out@) + spec_lines(v@) =~= spec_lines(v@));
    while i < v.len()
        invariant
            start <= i <= v.len(),
            forall|j: int| start <= j < i ==> v@[j] != '\n',
            spec_lines(v@) == view_lines(out@) + spec_lines(v@.skip(start as int)),
        decreases v.len() - i,
    {
        if v[i] == '\n' {
            let end = if i > start && v[i - 1] == '\r' {
                i - 1
            } else {
                i
            };
            let line = slice(v, start, end);
            proof {
                let rest = v@.skip(start as int);
                let k = i - start;
                assert forall|j: int| 0 <= j < k implies rest[j] != '\n' by {
                    assert(rest[j] == v@[j + start]);
                }
                lemma_find_at(rest, '\n', k);
                assert(rest.take(k) =~= v@.subrange(start as int, i as int));
                assert(spec_strip_cr(rest.take(k)) =~= line@);
                assert(rest.skip(k + 1) =~= v@.skip(i + 1));
                assert(spec_lines(rest) == seq![line@] + spec_lines(v@.skip(i + 1)));
                assert(view_lines(out@).push(line@) + spec_lines(v@.skip(i + 1)) =~= view_lines(
                    out@,
                ) + spec_lines(rest));
            }
            let ghost before = view_lines(out@);
            out.push(line);
            assert(view_lines(out@) =~= before.push(line@));
            start = i + 1;
        }
        i = i + 1;
    }
    if start < v.len() {
        let line = slice(v, start, v.len());
        proof {
            let rest = v@.skip(start as int);
            assert forall|j: int| 0 <= j < rest.len() implies rest[j] != '\n' by {
                assert(rest[j] == v@[j + start]);
            }
            lemma_find_none(rest, '\n');
            assert(rest =~= line@);
            assert(spec_lines(rest) == seq![rest]);
        }
        let ghost before = view_lines(out@);
        out.push(line);
        assert(view_lines(out@) =~= before.push(line@));
    } else {
        assert(v@.skip(start as int).len() == 0);
        assert(view_lines(out@) + Seq::<Seq<char>>::empty() =~= view_lines(out@));
    }
    out
}

/// Every line of `lines` followed by a line feed, one after the other.
pub fn unlines(lines: &Vec<Vec<char>>) -> (out: Vec<char>)
    ensures
        out@ == spec_unlines(view_lines(lines@)),
{
    let mut out: Vec<char> = Vec::new();
    let ghost f = |l: Seq<char>| l.push('\n');
    let mut i: usize = 0;
    while i < lines.len()
        invariant
            i <= lines.len(),
            f == |l: Seq<char>| l.push('\n'),
            out@ == view_lines(lines@).take(i as int).map_values(f).flatten(),
        decreases lines.len() - i,
    {
        let line = &lines[i];
        let ghost base = out@;
        let mut j: usize = 0;
        while j < line.len()
            invariant
                j <= line.len(),
                out@ == base + line@.take(j as int),
            decreases line.len() - j,
        {
            out.push(line[j]);
            j = j + 1;
        }
        out.push('\n');
        proof {
            let all = view_lines(lines@);
            let done = all.take(i as int).map_values(f);
            assert(all[i as int] == line@);
            assert(all.take(i + 1).map_values(f) =~= done.push(f(line@)));
            done.lemma_flatten_push(f(line@));
            assert(line@.take(line@.len() as int) =~= line@);
            assert(out@ =~= base + f(line@));
        }
        i = i + 1;
    }
    assert(view_lines(lines@).take(lines.len() as int) =~= view_lines(lines@));
    out
}

/// The parts one after the other, with `sep` between each two.
pub fn join(parts: &Vec<String>, sep: &str) -> (out: String)
    ensures
        out@ == spec_join(parts.deep_view(), sep@),
{
    let mut out = String::new();
    let mut i: usize = 0;
    assert(parts.deep_view().take(0) =~= Seq::<Seq<char>>::empty());
    while i < parts.len()
        invariant
            i <= parts.len(),
            out@ == spec_join(parts.deep_view().take(i as int), sep@),
        decreases parts.len() - i,
    {
        proof {
            let seen = parts.deep_view().take(i + 1);
            assert(seen.drop_last() =~= parts.deep_view().take(i as int));
            assert(seen.last() == parts@[i as int]@);
            assert(Seq::<char>::empty() + parts@[i as int]@ =~= parts@[i as int]@);
        }
        if i > 0 {
            out.append(sep);
        }
        out.append(parts[i].as_str());
        i = i + 1;
    }
    assert(parts.deep_view().take(parts.len() as int) =~= parts.deep_view());
    out
}

/// The parts that `sep` divides `v` into.
pub fn split(v: &Vec<char>, sep: char) -> (out: Vec<Vec<char>>)
    ensures
        view_lines(out@) == spec_split(v@, sep),
        out.len() >= 1,
{
    let mut out: Vec<Vec<char>> = Vec::new();
    let mut start: usize = 0;
    let mut i: usize = 0;
    assert(v@.skip(0) =~= v@);
    assert(view_lines(out@) + spec_split(v@, sep) =~= spec_split(v@, sep));
    while i < v.len()
        invariant
            start <= i <= v.len(),
            forall|j: int| start <= j < i ==> v@[j] != sep,
            spec_split(v@, sep) == view_lines(out@) + spec_split(v@.skip(start as int), sep),
        decreases v.len() - i,
    {
        if v[i] == sep {
            let part = slice(v, start, i);
            proof {
                let rest = v@.skip(start as int);
                let k = i - start;
                assert forall|j: int| 0 <= j < k implies rest[j] != sep by {
                    assert(rest[j] == v@[j + start]);
                }
                lemma_find_at(rest, sep, k);
                assert(rest.take(k) =~= part@);
                assert(rest.skip(k + 1) =~= v@.skip(i + 1));
                assert(view_lines(out@).push(part@) + spec_split(v@.skip(i + 1), sep)
                    =~= view_lines(out@) + spec_split(rest, sep));
            }
            let ghost before = view_lines(out@);
            out.push(part);
            assert(view_lines(out@) =~= before.push(part@));
            start = i + 1;
        }
        i = i + 1;
    }
    let part = slice(v, start, v.len());
    proof {
        let rest = v@.skip(start as int);
        assert forall|j: int| 0 <= j < rest.len() implies rest[j] != sep by {
            assert(rest[j] == v@[j + start]);
        }
        lemma_find_none(rest, sep);
        assert(rest =~= part@);
    }
    let ghost before = view_lines(out@);
    out.push(part);
    assert(view_lines(out@) =~= before.push(part@));
    out
}

/// Whether `line` holds no line feed.
pub open spec fn spec_no_line_feed(line: Seq<char>) -> bool {
    forall|j: int| 0 <= j < line.len() ==> line[j] != '\n'
}

/// The function that `spec_strip_cr` is, as a value.
pub open spec fn strip_cr_fn() -> spec_fn(Seq<char>) -> Seq<char> {
    |line: Seq<char>| spec_strip_cr(line)
}

/// No line of a text holds a line feed.
pub proof fn lemma_lines_hold_no_line_feed(s: Seq<char>)
    ensures
        forall|i: int|
            0 <= i < spec_lines(s).len() ==> spec_no_line_feed(#[trigger] spec_lines(s)[i]),
    decreases s.len(),
{
    if s.len() > 0 {
        lemma_find(s, '\n');
        match spec_find(s, '\n') {
            None => {},
            Some(k) => {
                let rest = s.skip(k + 1);
                lemma_lines_hold_no_line_feed(rest);
                let first = spec_strip_cr(s.take(k));
                assert(spec_no_line_feed(first));
                assert forall|i: int| 0 <= i < spec_lines(s).len() implies spec_no_line_feed(
                    #[trigger] spec_lines(s)[i],
                ) by {
                    if i > 0 {
                        assert(spec_lines(s)[i] == spec_lines(rest)[i - 1]);
                    }
                }
            },
        }
    }
}

/// Writing lines out and reading them back gives the same lines, each without the
/// carriage return that it ended in, if it did, provided that no line holds a
/// line feed.
pub proof fn lemma_lines_of_unlines(lines: Seq<Seq<char>>)
    requires
        forall|i: int| 0 <= i < lines.len() ==> spec_no_line_feed(#[trigger] lines[i]),
    ensures
        spec_lines(spec_unlines(lines)) == lines.map_values(strip_cr_fn()),
    decreases lines.len(),
{
    let close = |l: Seq<char>| l.push('\n');
    let closed = lines.map_values(close);
    if lines.len() == 0 {
        assert(spec_lines(spec_unlines(lines)) =~= lines.map_values(strip_cr_fn()));
    } else {
        let rest = lines.drop_first();
        assert(closed.drop_first() =~= rest.map_values(close));
        let text = spec_unlines(lines);
        let first = lines[0];
        assert(text == first.push('\n') + spec_unlines(rest));
        let k = first.len() as int;
        assert(spec_no_line_feed(first));
        assert forall|j: int| 0 <= j < k implies text[j] != '\n' by {
            assert(text[j] == first[j]);
        }
        assert(text[k] == '\n');
        lemma_find_at(text, '\n', k);
        assert(text.take(k) =~= first);
        assert(text.skip(k + 1) =~= spec_unlines(rest));
        assert forall|i: int| 0 <= i < rest.len() implies spec_no_line_feed(#[trigger] rest[i]) by {
            assert(rest[i] == lines[i + 1]);
        }
        lemma_lines_of_unlines(rest);
        assert(seq![spec_strip_cr(first)] + rest.map_values(strip_cr_fn()) =~= lines.map_values(
            strip_cr_fn(),
        ));
    }
}

/// White space added at the end does not change what trimming the start leaves,
/// but for being there.
pub proof fn lemma_trim_start_push(s: Seq<char>, w: char)
    requires
        spec_is_whitespace(w),
    ensures
        spec_trim_start(s.push(w)) == if spec_trim_start(s).len() == 0 {
            Seq::<char>::empty()
        } else {
            spec_trim_start(s).push(w)
        },
    decreases s.len(),
{
    if s.len() == 0 {
        assert(s.push(w).skip(1) =~= Seq::<char>::empty());
        assert(s =~= Seq::<char>::empty());
    } else if spec_is_whitespace(s[0]) {
        lemma_trim_start_push(s.skip(1), w);
        assert(s.push(w).skip(1) =~= s.skip(1).push(w));
    } else {
        assert(s.push(w)[0] == s[0]);
    }
}

/// White space added at the end is trimmed away.
pub proof fn lemma_trim_push(s: Seq<char>, w: char)
    requires
        spec_is_whitespace(w),
    ensures
        spec_trim(s.push(w)) == spec_trim(s),
{
    lemma_trim_start_push(s, w);
    let t = spec_trim_start(s);
    if t.len() > 0 {
        assert(t.push(w).drop_last() =~= t);
    }
}

/// A carriage return at the end of a line is trimmed away with the rest.
pub proof fn lemma_trim_strip_cr(line: Seq<char>)
    ensures
        spec_trim(spec_strip_cr(line)) == spec_trim(line),
{
    if line.len() > 0 && line.last() == '\r' {
        lemma_trim_push(line.drop_last(), '\r');
        assert(line.drop_last().push('\r') =~= line);
    }
}

/// A text that begins and ends with something other than white space is trimmed
/// to itself.
pub proof fn lemma_trim_nothing(s: Seq<char>)
    requires
        s.len() > 0,
        !spec_is_whitespace(s[0]),
        !spec_is_whitespace(s.last()),
    ensures
        spec_trim(s) == s,
{
}

} // verus!
