//! Field rules: the length and range limits that options are held to, and
//! the list of offending field names that a check of several fields yields.

use vstd::prelude::*;
use vstd::string::*;

verus! {

/// The characters of each text in `v`.
pub open spec fn texts(v: Seq<String>) -> Seq<Seq<char>> {
    v.map_values(|s: String| s@)
}

/// A one-element list naming `field` when `bad` holds, else nothing.
pub open spec fn flag(bad: bool, field: Seq<char>) -> Seq<Seq<char>> {
    if bad {
        seq![field]
    } else {
        Seq::empty()
    }
}

/// `s` has between `min` and `max` characters.
pub open spec fn chars_within(s: Seq<char>, min: nat, max: nat) -> bool {
    min <= s.len() <= max
}

/// An optional text is absent or has between `min` and `max` characters.
pub open spec fn opt_chars_within(o: Option<String>, min: nat, max: nat) -> bool {
    match o {
        Some(s) => chars_within(s@, min, max),
        None => true,
    }
}

/// An optional optional text is absent, cleared, or within the limits.
pub open spec fn opt2_chars_within(o: Option<Option<String>>, min: nat, max: nat) -> bool {
    match o {
        Some(Some(s)) => chars_within(s@, min, max),
        _ => true,
    }
}

/// The UTF-8 length of `s` (its byte count) is at most `max`.
pub open spec fn bytes_within(s: Seq<char>, max: nat) -> bool {
    vstd::utf8::encode_utf8(s).len() <= max
}

/// Tests that `s` has between `min` and `max` characters.
pub fn text_within(s: &str, min: usize, max: usize) -> (r: bool)
    ensures
        r == chars_within(s@, min as nat, max as nat),
{
    let n = s.unicode_len();
    min <= n && n <= max
}

/// Tests that an optional text is absent or within the limits.
pub fn opt_text_within(o: &Option<String>, min: usize, max: usize) -> (r: bool)
    ensures
        r == opt_chars_within(*o, min as nat, max as nat),
{
    match o {
        Some(s) => text_within(s.as_str(), min, max),
        None => true,
    }
}

/// Tests that an optional optional text is absent, cleared, or within the
/// limits.
pub fn opt2_text_within(o: &Option<Option<String>>, min: usize, max: usize) -> (r: bool)
    ensures
        r == opt2_chars_within(*o, min as nat, max as nat),
{
    match o {
        Some(Some(s)) => text_within(s.as_str(), min, max),
        _ => true,
    }
}

/// Tests that the UTF-8 length of `s` is at most `max`.
pub fn bytes_at_most(s: &str, max: usize) -> (r: bool)
    ensures
        r == bytes_within(s@, max as nat),
{
    let b = s.as_bytes();
    b.len() <= max
}

/// Records `field` as offending unless `ok`.
pub fn note(errors: &mut Vec<String>, ok: bool, field: &str)
    ensures
        texts(final(errors)@) == texts(old(errors)@) + flag(!ok, field@),
{
    if !ok {
        errors.push(field.to_owned());
        assert(texts(errors@) =~= texts(old(errors)@) + flag(!ok, field@));
    } else {
        assert(texts(errors@) =~= texts(old(errors)@) + flag(!ok, field@));
    }
}

} // verus!
