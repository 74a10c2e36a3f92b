//! Path checks: whether a path names a file of the kind that is asked for.
//!
//! What is on disk is looked up outside this crate and handed in. How a path
//! divides into components is the standard library's business; this crate asks
//! it for the extension, and whether two paths are the same, and decides on the
//! answers.

use vstd::prelude::*;
use crate::text::{eq_ignore_ascii_case, spec_eq_ignore_ascii_case, to_chars};

verus! {

/// Whether `part` stands in `whole` directly behind a dot.
pub open spec fn spec_follows_dot(whole: Seq<char>, part: Seq<char>) -> bool {
    exists|i: int|
        0 < i && i + part.len() <= whole.len() && whole[i - 1] == '.' && #[trigger] whole.subrange(
            i,
            i + part.len(),
        ) == part
}

/// The extension of `path` as `std::path::Path::extension` gives it. The contract
/// claims that it is `path_extension_text` of the path's text, and, as the standard
/// library documents the extension as the portion of the file name after the final
/// dot, that an extension holds no dot and stands in the path directly behind one.
#[verifier::external_body]
fn path_extension(path: &str) -> (extension: Option<String>)
    ensures
        extension.deep_view() == path_extension_text(path@),
        extension matches Some(e) ==> !e@.contains('.') && spec_follows_dot(path@, e@),
{
    match std::path::Path::new(path).extension() {
        Some(extension) => match extension.to_str() {
            Some(text) => Some(text.to_owned()),
            None => None,
        },
        None => None,
    }
}

/// Whether two texts denote the same path by `std::path::Path`'s `==`, which
/// compares paths component by component. The contract claims that the answer is
/// `path_same` of the two texts, and that a text denotes the same path as itself.
#[verifier::external_body]
fn path_eq(a: &str, b: &str) -> (same: bool)
    ensures
        same == path_same(a@, b@),
        a@ == b@ ==> same,
{
    std::path::Path::new(a) == std::path::Path::new(b)
}

/// Whether an extension, if there is one, is the wanted one, letter case aside.
pub open spec fn spec_extension_matches(extension: Option<Seq<char>>, wanted: Seq<char>) -> bool {
    match extension {
        Some(e) => spec_eq_ignore_ascii_case(e, wanted),
        None => false,
    }
}

/// Whether an extension, if there is one, is the wanted one, letter case aside.
pub fn extension_matches(extension: &Option<String>, wanted: &str) -> (r: bool)
    ensures
        r == spec_extension_matches(extension.deep_view(), wanted@),
{
    match extension {
        Some(e) => {
            let have = to_chars(e.as_str());
            let want = to_chars(wanted);
            eq_ignore_ascii_case(&have, &want)
        },
        None => false,
    }
}

/// Whether `path` names a regular file with the extension `ext`, letter case
/// aside. `is_file` says whether a regular file is at the path.
///
/// The answer is yes exactly if a regular file is there and the extension that
/// the standard library finds in the path equals `ext`, letter case aside. Such
/// an extension holds no dot and stands in the path directly behind one.
pub fn is_file_with_ext(path: &str, is_file: bool, ext: &str) -> (r: bool)
    ensures
        r == spec_is_file_with_ext(path@, is_file, ext@),
        r ==> exists|e: Seq<char>|
            #![trigger spec_follows_dot(path@, e)]
            !e.contains('.') && spec_follows_dot(path@, e) && spec_eq_ignore_ascii_case(e, ext@),
{
    if !is_file {
        return false;
    }
    let extension = path_extension(path);
    let r = extension_matches(&extension, ext);
    proof {
        if r {
            let e = extension.deep_view()->Some_0;
            assert(spec_follows_dot(path@, e));
        }
    }
    r
}

/// Whether one of `paths` denotes the path `wanted`. An empty `wanted` denotes
/// nothing.
///
/// The answer is yes exactly if `wanted` is not empty and one of the paths is the
/// same path as it by the standard library's comparison. A path spelled exactly
/// as `wanted` is always the same path.
pub fn any_path_matches(wanted: &str, paths: &Vec<String>) -> (r: bool)
    ensures
        r == spec_any_path_matches(wanted@, paths.deep_view()),
        wanted@.len() > 0 && (exists|i: int|
            0 <= i < paths@.len() && (#[trigger] paths@[i])@ == wanted@) ==> r,
{
    if wanted.is_empty() {
        return false;
    }
    let mut i: usize = 0;
    while i < paths.len()
        invariant
            i <= paths.len(),
            wanted@.len() > 0,
            forall|j: int| 0 <= j < i ==> !path_same(wanted@, (#[trigger] paths@[j])@),
            forall|j: int| 0 <= j < i ==> (#[trigger] paths@[j])@ != wanted@,
        decreases paths.len() - i,
    {
        if path_eq(wanted, paths[i].as_str()) {
            assert(path_same(wanted@, paths.deep_view()[i as int]));
            return true;
        }
        i = i + 1;
    }
    assert forall|j: int| 0 <= j < paths.deep_view().len() implies !path_same(
        wanted@,
        #[trigger] paths.deep_view()[j],
    ) by {
        assert(paths.deep_view()[j] == paths@[j]@);
    }
    false
}

/// The extension that `std::path::Path::extension` finds in a path of the given
/// text, as text. It is found by looking at the text alone, by the path rules of
/// the platform that the crate is built for.
pub uninterp spec fn path_extension_text(path: Seq<char>) -> Option<Seq<char>>;

/// Whether two texts denote the same path by the comparison of
/// `std::path::Path`. It is found by looking at the two texts alone, by the path
/// rules of the platform that the crate is built for.
pub uninterp spec fn path_same(a: Seq<char>, b: Seq<char>) -> bool;

/// Whether one of `paths` is the same path as `wanted`, which is not empty.
pub open spec fn spec_any_path_matches(wanted: Seq<char>, paths: Seq<Seq<char>>) -> bool {
    wanted.len() > 0 && exists|i: int|
        0 <= i < paths.len() && path_same(wanted, #[trigger] paths[i])
}

/// Whether a path of the given text names a regular file with the extension
/// `ext`, letter case aside, where `is_file` says whether a regular file is at
/// the path.
pub open spec fn spec_is_file_with_ext(path: Seq<char>, is_file: bool, ext: Seq<char>) -> bool {
    is_file && spec_extension_matches(path_extension_text(path), ext)
}

} // verus!
