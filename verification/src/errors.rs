//! The error bodies that the API answers with: a JSON object whose
//! `errors` member lists the messages.

use vstd::prelude::*;
use crate::text::{hex_char, push_str};
use crate::validation::texts;

verus! {

/// How JSON writes one character inside a string: quote, backslash and
/// the control characters escaped, the named ones by their short form and
/// the others as `\u00xx` in lower-case hexadecimal; every other
/// character as itself.
pub open spec fn json_escape(c: char) -> Seq<char> {
    if c == '"' {
        seq!['\\', '"']
    } else if c == '\\' {
        seq!['\\', '\\']
    } else if c == '\x08' {
        seq!['\\', 'b']
    } else if c == '\t' {
        seq!['\\', 't']
    } else if c == '\n' {
        seq!['\\', 'n']
    } else if c == '\x0c' {
        seq!['\\', 'f']
    } else if c == '\r' {
        seq!['\\', 'r']
    } else if (c as u32) < 0x20 {
        seq!['\\', 'u', '0', '0', hex_char((c as nat) / 16), hex_char((c as nat) % 16)]
    } else {
        seq![c]
    }
}

/// The characters of `s`, each written as JSON writes it in a string.
pub open spec fn json_escaped(s: Seq<char>) -> Seq<char>
    decreases s.len(),
{
    if s.len() == 0 {
        Seq::empty()
    } else {
        json_escaped(s.drop_last()) + json_escape(s.last())
    }
}

/// `s` as a JSON string literal.
pub open spec fn json_quoted(s: Seq<char>) -> Seq<char> {
    seq!['"'] + json_escaped(s) + seq!['"']
}

/// The JSON string literal of `s`; `serde_json::to_string` on a string.
/// serde_json writes the quotes and escapes the characters as
/// `json_escape` says; writing into memory cannot fail.
#[verifier::external_body]
fn json_string(s: &str) -> (r: String)
    ensures
        r@ == json_quoted(s@),
{
    match serde_json::to_string(s) {
        Ok(t) => t,
        Err(_) => String::new(),
    }
}

/// The members of a JSON array of the strings `v`, comma-separated.
pub open spec fn json_items(v: Seq<Seq<char>>) -> Seq<char>
    decreases v.len(),
{
    if v.len() == 0 {
        Seq::empty()
    } else if v.len() == 1 {
        json_quoted(v[0])
    } else {
        json_items(v.drop_last()) + seq![','] + json_quoted(v.last())
    }
}

/// The body of an error answer listing the messages `v`.
pub open spec fn errors_body(v: Seq<Seq<char>>) -> Seq<char> {
    "{\"errors\":["@ + json_items(v) + "]}"@
}

/// A refused request: the HTTP status it is answered with and its message.
#[derive(Debug, PartialEq, Eq)]
pub struct ApiRefusal {
    pub status: u16,
    pub message: String,
}

/// The answer "conflict".
pub const CONFLICT: u16 = 409;

/// The answer "too many requests".
pub const TOO_MANY_REQUESTS: u16 = 429;

/// The answer "not implemented".
pub const NOT_IMPLEMENTED: u16 = 501;

/// An error answer: the messages that explain it.
pub struct ApiError {
    pub errors: Vec<String>,
}

/// The messages of a list of borrowed texts.
pub open spec fn str_texts(v: Seq<&str>) -> Seq<Seq<char>> {
    v.map_values(|s: &str| s@)
}

/// Writes the JSON array members for `v` after `out`.
fn push_json_items(out: &mut String, v: &[&str])
    ensures
        final(out)@ == old(out)@ + json_items(str_texts(v@)),
{
    let mut i: usize = 0;
    while i < v.len()
        invariant
            i <= v@.len(),
            out@ == old(out)@ + json_items(str_texts(v@.subrange(0, i as int))),
        decreases v@.len() - i,
    {
        let ghost before = out@;
        if i > 0 {
            push_str(out, ",");
        }
        let q = json_string(v[i]);
        push_str(out, q.as_str());
        proof {
            reveal_strlit(",");
            let pre = str_texts(v@.subrange(0, i as int));
            let next = str_texts(v@.subrange(0, i + 1));
            assert(next.drop_last() =~= pre);
            assert(next.last() == v@[i as int]@);
            if i == 0 {
                assert(next =~= seq![v@[0]@]);
                assert(json_items(next) == json_quoted(v@[0]@));
                assert(out@ =~= old(out)@ + json_items(next));
            } else {
                assert(json_items(next) == json_items(pre) + seq![','] + json_quoted(v@[i as int]@));
                assert(out@ =~= old(out)@ + json_items(next));
            }
        }
        i = i + 1;
    }
    assert(v@.subrange(0, v@.len() as int) =~= v@);
}

impl ApiError {
    /// The body of an error answer with the messages `errors`.
    pub fn new_value(errors: &[&str]) -> (r: String)
        ensures
            r@ == errors_body(str_texts(errors@)),
    {
        let mut r = "{\"errors\":[".to_owned();
        push_json_items(&mut r, errors);
        push_str(&mut r, "]}");
        assert(r@ =~= errors_body(str_texts(errors@)));
        r
    }

    /// The body of an error answer with the owned messages `errors`.
    pub fn new_strings_value(errors: Vec<String>) -> (r: String)
        ensures
            r@ == errors_body(texts(errors@)),
    {
        let mut borrowed: Vec<&str> = Vec::new();
        let mut i: usize = 0;
        while i < errors.len()
            invariant
                i <= errors@.len(),
                borrowed@.len() == i,
                forall|j: int| 0 <= j < i ==> #[trigger] borrowed@[j]@ == errors@[j]@,
            decreases errors@.len() - i,
        {
            borrowed.push(errors[i].as_str());
            i = i + 1;
        }
        assert(str_texts(borrowed@) =~= texts(errors@));
        Self::new_value(borrowed.as_slice())
    }

    /// The body of an error answer that passes on the daemon's message.
    pub fn new_wings_value(error: &str) -> (r: String)
        ensures
            r@ == errors_body(seq![error@]),
    {
        let v: Vec<&str> = vec![error];
        assert(str_texts(v@) =~= seq![error@]);
        Self::new_value(v.as_slice())
    }

    /// This error's answer body.
    pub fn to_body(&self) -> (r: String)
        ensures
            r@ == errors_body(texts(self.errors@)),
    {
        let mut borrowed: Vec<&str> = Vec::new();
        let mut i: usize = 0;
        while i < self.errors.len()
            invariant
                i <= self.errors@.len(),
                borrowed@.len() == i,
                forall|j: int| 0 <= j < i ==> #[trigger] borrowed@[j]@ == self.errors@[j]@,
            decreases self.errors@.len() - i,
        {
            borrowed.push(self.errors[i].as_str());
            i = i + 1;
        }
        assert(str_texts(borrowed@) =~= texts(self.errors@));
        Self::new_value(borrowed.as_slice())
    }
}

} // verus!
