//! The decisions of the HTTP layer: how plain-text client errors become
//! JSON, entity tags and conditional answers, avatar and frontend files,
//! the daemon proxy's addressing, and the names of API operations.

use vstd::prelude::*;
use crate::errors::{ApiError, errors_body};
use crate::ids::{uuid_from_text, uuid_parsed};
use crate::paths::{extension, extension_of};
use crate::paths::{first_index, first_index_of, lemma_first_index_of};
use crate::text::{char_range, bytes_to_hex, chars_of, contains_str, ends_with, has_infix, has_prefix, has_suffix, hex_bytes, push_str, starts_with, string_from_chars, text_eq};

verus! {

/// Whether `status` is a client error (400 to 499).
pub open spec fn is_client_error(status: u16) -> bool {
    400 <= status <= 499
}

/// A plain-text answer to a client error, other than "not found", is
/// turned into a JSON error answer.
pub open spec fn spec_wraps_plain_error(content_type: Option<Seq<char>>, status: u16) -> bool {
    match content_type {
        Some(c) => has_prefix(c, "text/plain"@) && is_client_error(status) && status != 404,
        None => false,
    }
}

/// Decides whether an answer's body is turned into a JSON error answer;
/// `content_type` is the answer's content type where it is readable text.
pub fn wraps_plain_error(content_type: Option<&str>, status: u16) -> (r: bool)
    ensures
        r == spec_wraps_plain_error(
            match content_type {
                Some(c) => Some(c@),
                None => None,
            },
            status,
        ),
{
    match content_type {
        Some(c) => {
            let cs = chars_of(c);
            starts_with(cs.as_slice(), "text/plain") && 400 <= status && status <= 499 && status != 404
        },
        None => false,
    }
}

/// Reads bytes as UTF-8 text (`String::from_utf8`): the text where the
/// bytes are valid UTF-8, else the bytes back, as std documents.
#[verifier::external_body]
fn utf8_text(bytes: Vec<u8>) -> (r: Result<String, Vec<u8>>)
    ensures
        match r {
            Ok(s) => vstd::utf8::valid_utf8(bytes@) && s@ == vstd::utf8::decode_utf8(bytes@),
            Err(b) => !vstd::utf8::valid_utf8(bytes@) && b@ == bytes@,
        },
{
    match String::from_utf8(bytes) {
        Ok(s) => Ok(s),
        Err(e) => Err(e.into_bytes()),
    }
}

/// The body of a plain-text error answer as a JSON error answer: the text
/// as its one message where the body is UTF-8, else the body unchanged
/// (`Err`).
pub fn plain_error_body(body: Vec<u8>) -> (r: Result<String, Vec<u8>>)
    ensures
        match r {
            Ok(json) => vstd::utf8::valid_utf8(body@) && json@ == errors_body(
                seq![vstd::utf8::decode_utf8(body@)],
            ),
            Err(b) => !vstd::utf8::valid_utf8(body@) && b@ == body@,
        },
{
    match utf8_text(body) {
        Ok(text) => Ok(ApiError::new_wings_value(text.as_str())),
        Err(b) => Err(b),
    }
}

/// The SHA-256 digest of `bytes`.
pub uninterp spec fn sha256(bytes: Seq<u8>) -> Seq<u8>;

/// Hashes `bytes` with SHA-256 (`sha2::Sha256::digest`).
///
/// Claims that the digest is the function `sha256` of the bytes, 32 bytes
/// long (the output size the crate declares); how it is computed is left
/// to the crate.
#[verifier::external_body]
fn sha256_digest(bytes: &[u8]) -> (r: Vec<u8>)
    ensures
        r@ == sha256(bytes@),
        r@.len() == 32,
{
    <sha2::Sha256 as sha2::Digest>::digest(bytes).to_vec()
}

/// The entity tag of a body: the lower-case hexadecimal SHA-256 digest.
pub open spec fn body_etag(body: Seq<u8>) -> Seq<char> {
    hex_bytes(sha256(body))
}

/// The entity tag of an answer, and whether the layer adds it.
pub struct EtagPlan {
    pub etag: Option<String>,
    pub insert_header: bool,
}

/// Where an answer carries an entity tag, that one (where it is readable
/// text); else, where its content type is readable and not exactly
/// `text/plain`, the digest of its body, added to the answer; else none.
pub open spec fn spec_etag_plan(
    existing: Option<Option<Seq<char>>>,
    content_type: Option<Option<Seq<char>>>,
    body: Seq<u8>,
) -> (Option<Seq<char>>, bool) {
    match existing {
        Some(e) => (e, false),
        None => match content_type {
            Some(Some(c)) => if c != "text/plain"@ {
                (Some(body_etag(body)), true)
            } else {
                (None, false)
            },
            _ => (None, false),
        },
    }
}

/// The view of an optional optional text.
pub open spec fn opt2_view(o: Option<Option<String>>) -> Option<Option<Seq<char>>> {
    match o {
        Some(Some(s)) => Some(Some(s@)),
        Some(None) => Some(None),
        None => None,
    }
}

/// Decides the entity tag of an answer. `existing` is its `ETag` header
/// where it has one (the inner `None` where the header is not readable
/// text), `content_type` likewise its content type.
pub fn etag_plan(existing: Option<Option<String>>, content_type: Option<Option<String>>, body: &[u8]) -> (r: EtagPlan)
    ensures
        (match r.etag {
            Some(e) => Some(e@),
            None => None,
        }, r.insert_header) == spec_etag_plan(opt2_view(existing), opt2_view(content_type), body@),
{
    match existing {
        Some(e) => EtagPlan { etag: e, insert_header: false },
        None => match content_type {
            Some(Some(c)) => if !text_eq(c.as_str(), "text/plain") {
                let digest = sha256_digest(body);
                let hex = bytes_to_hex(digest.as_slice());
                EtagPlan { etag: Some(hex), insert_header: true }
            } else {
                EtagPlan { etag: None, insert_header: false }
            },
            _ => EtagPlan { etag: None, insert_header: false },
        },
    }
}

/// An answer is replaced by "not modified" where it has an entity tag and
/// the request's `If-None-Match` is that tag.
pub fn is_not_modified(etag: &Option<String>, if_none_match: &Option<String>) -> (r: bool)
    ensures
        r == (match (etag, if_none_match) {
            (Some(e), Some(m)) => e@ == m@,
            _ => false,
        }),
{
    match (etag, if_none_match) {
        (Some(e), Some(m)) => text_eq(e.as_str(), m.as_str()),
        _ => false,
    }
}

/// An avatar file name is 13 bytes long, holds no `..` and ends in
/// `.webp`.
pub open spec fn spec_avatar_file_ok(file: Seq<char>) -> bool {
    vstd::utf8::encode_utf8(file).len() == 13 && !has_infix(file, ".."@) && has_suffix(file, ".webp"@)
}

/// Tests an avatar file name.
pub fn avatar_file_ok(file: &str) -> (r: bool)
    ensures
        r == spec_avatar_file_ok(file@),
{
    let cs = chars_of(file);
    file.as_bytes().len() == 13 && !contains_str(cs.as_slice(), "..") && ends_with(cs.as_slice(), ".webp")
}

/// `s` without every trailing `p`; `p` is not empty.
pub open spec fn trim_end_text(s: Seq<char>, p: Seq<char>) -> Seq<char>
    recommends
        p.len() > 0,
    decreases s.len(),
{
    if p.len() > 0 && has_suffix(s, p) {
        trim_end_text(s.subrange(0, s.len() - p.len()), p)
    } else {
        s
    }
}

/// The entity tag of an avatar: its file name without the `.webp` ending.
pub fn avatar_etag(file: &str) -> (r: String)
    ensures
        r@ == trim_end_text(file@, ".webp"@),
{
    let cs = chars_of(file);
    let mut n: usize = cs.len();
    proof {
        reveal_strlit(".webp");
    }
    assert(cs@.subrange(0, n as int) =~= file@);
    while n >= 5 && ends_with(char_range(cs.as_slice(), 0, n).as_slice(), ".webp")
        invariant
            n <= cs@.len(),
            cs@ == file@,
            ".webp"@.len() == 5,
            trim_end_text(cs@.subrange(0, n as int), ".webp"@) == trim_end_text(file@, ".webp"@),
        decreases n,
    {
        assert(cs@.subrange(0, n as int).subrange(0, n - 5) =~= cs@.subrange(0, n - 5));
        n = n - 5;
    }
    proof {
        let t = cs@.subrange(0, n as int);
        if n < 5 {
            assert(!has_suffix(t, ".webp"@));
        }
    }
    let kept = char_range(cs.as_slice(), 0, n);
    string_from_chars(kept.as_slice())
}

/// Where a request to the daemon proxy goes: under `/wings-proxy/`, the
/// text up to the next slash must be a node's UUID, and the rest is the
/// path on that node.
pub open spec fn spec_wings_proxy_target(path: Seq<char>) -> Option<(u128, Seq<char>)> {
    let prefix = "/wings-proxy/"@;
    if !has_prefix(path, prefix) {
        None
    } else {
        let rest = path.subrange(prefix.len() as int, path.len() as int);
        match first_index_of(rest, '/') {
            None => None,
            Some(k) => match uuid_parsed(rest.subrange(0, k as int)) {
                Some(node) => Some((node, rest.subrange(k + 1int, rest.len() as int))),
                None => None,
            },
        }
    }
}

/// The node and path that a request to the daemon proxy goes to, if it
/// names one.
pub fn wings_proxy_target(path: &str) -> (r: Option<(u128, String)>)
    ensures
        match r {
            Some((node, p)) => spec_wings_proxy_target(path@) == Some((node, p@)),
            None => spec_wings_proxy_target(path@) is None,
        },
{
    let cs = chars_of(path);
    if !starts_with(cs.as_slice(), "/wings-proxy/") {
        return None;
    }
    proof {
        reveal_strlit("/wings-proxy/");
    }
    let rest = char_range(cs.as_slice(), 13, cs.len());
    match first_index(rest.as_slice(), '/') {
        None => None,
        Some(k) => {
            proof {
                lemma_first_index_of(rest@, '/');
            }
            let node_part = char_range(rest.as_slice(), 0, k);
            let node_text = string_from_chars(node_part.as_slice());
            match uuid_from_text(node_text.as_str()) {
                Some(node) => {
                    let path_part = char_range(rest.as_slice(), k + 1, rest.len());
                    let p = string_from_chars(path_part.as_slice());
                    Some((node, p))
                },
                None => None,
            }
        },
    }
}

/// The content type of a frontend file by its extension, where the
/// content itself tells nothing.
pub open spec fn spec_fallback_mime(extension: Option<Seq<char>>) -> Seq<char> {
    match extension {
        Some(e) => if e == "html"@ {
            "text/html"@
        } else if e == "js"@ {
            "application/javascript"@
        } else if e == "css"@ {
            "text/css"@
        } else if e == "json"@ {
            "application/json"@
        } else if e == "svg"@ {
            "image/svg+xml"@
        } else {
            "application/octet-stream"@
        },
        None => "application/octet-stream"@,
    }
}

/// Picks the content type of a frontend file by its extension.
pub fn fallback_mime(extension: Option<&str>) -> (r: &'static str)
    ensures
        r@ == spec_fallback_mime(
            match extension {
                Some(e) => Some(e@),
                None => None,
            },
        ),
{
    match extension {
        Some(e) => if text_eq(e, "html") {
            "text/html"
        } else if text_eq(e, "js") {
            "application/javascript"
        } else if text_eq(e, "css") {
            "text/css"
        } else if text_eq(e, "json") {
            "application/json"
        } else if text_eq(e, "svg") {
            "image/svg+xml"
        } else {
            "application/octet-stream"
        },
        None => "application/octet-stream",
    }
}

/// The content type that `infer::get` recognises in `contents` by its
/// leading bytes, or `None` where it knows none.
pub uninterp spec fn mime_inferred(contents: Seq<u8>) -> Option<Seq<char>>;

/// Recognises the content type of `contents` (`infer::get`, then
/// `mime_type`).
///
/// Claims only that the result is the crate's, named `mime_inferred`;
/// which signatures it knows is left to the crate.
#[verifier::external_body]
fn infer_mime(contents: &[u8]) -> (r: Option<&'static str>)
    ensures
        match r {
            Some(m) => mime_inferred(contents@) == Some(m@),
            None => mime_inferred(contents@) is None,
        },
{
    match infer::get(contents) {
        Some(kind) => Some(kind.mime_type()),
        None => None,
    }
}

/// The content type of a frontend file: the one recognised in its
/// contents (`inferred`), else the one its extension names.
pub fn content_type_from(inferred: Option<&'static str>, path: &str) -> (r: &'static str)
    ensures
        r@ == match inferred {
            Some(m) => m@,
            None => spec_fallback_mime(extension_of(path@)),
        },
{
    match inferred {
        Some(m) => m,
        None => {
            let e = extension(path);
            match e {
                Some(x) => fallback_mime(Some(x.as_str())),
                None => fallback_mime(None),
            }
        },
    }
}

/// The content type that a frontend file at `path` is served with.
pub fn frontend_content_type(contents: &[u8], path: &str) -> (r: &'static str)
    ensures
        r@ == match mime_inferred(contents@) {
            Some(m) => m,
            None => spec_fallback_mime(extension_of(path@)),
        },
{
    content_type_from(infer_mime(contents), path)
}

/// Whether a frontend request is served from the storage driver: where it
/// names no built-in file (or fell back to the index) and lies under
/// `assets`.
pub fn serves_from_storage(entry_is_file: bool, is_index: bool, path: &str) -> (r: bool)
    ensures
        r == ((!entry_is_file || is_index) && has_prefix(path@, "assets"@)),
{
    let cs = chars_of(path);
    (!entry_is_file || is_index) && starts_with(cs.as_slice(), "assets")
}

/// The content security policy of the frontend's index page, with the
/// sources that the captcha provider needs.
pub open spec fn spec_content_security_policy(script: Seq<char>, frame: Seq<char>, style: Seq<char>) -> Seq<char> {
    "default-src 'self'; script-src 'self' blob: "@ + script + "; frame-src 'self' "@ + frame
        + "; style-src 'self' 'unsafe-inline' "@ + style
        + "; connect-src *; font-src 'self' blob: data:; img-src * blob: data:; media-src 'self' blob: data:; object-src 'none' blob: data:; base-uri 'self'; form-action 'self'; frame-ancestors 'self';"@
}

/// Builds the index page's content security policy.
pub fn content_security_policy(script: &str, frame: &str, style: &str) -> (r: String)
    ensures
        r@ == spec_content_security_policy(script@, frame@, style@),
{
    let mut r = "default-src 'self'; script-src 'self' blob: ".to_owned();
    push_str(&mut r, script);
    push_str(&mut r, "; frame-src 'self' ");
    push_str(&mut r, frame);
    push_str(&mut r, "; style-src 'self' 'unsafe-inline' ");
    push_str(&mut r, style);
    push_str(
        &mut r,
        "; connect-src *; font-src 'self' blob: data:; img-src * blob: data:; media-src 'self' blob: data:; object-src 'none' blob: data:; base-uri 'self'; form-action 'self'; frame-ancestors 'self';",
    );
    r
}

/// An API path as part of an operation's name: slashes become
/// underscores, braces go.
pub open spec fn operation_path(path: Seq<char>) -> Seq<char>
    decreases path.len(),
{
    if path.len() == 0 {
        Seq::empty()
    } else {
        let c = path.last();
        operation_path(path.drop_last()) + (if c == '/' {
            seq!['_']
        } else if c == '{' || c == '}' {
            Seq::empty()
        } else {
            seq![c]
        })
    }
}

/// The name of the operation `method` on `path`.
pub fn operation_id(method: &str, path: &str) -> (r: String)
    ensures
        r@ == method@ + operation_path(path@),
{
    let cs = chars_of(path);
    let mut out: Vec<char> = Vec::new();
    let mut i: usize = 0;
    while i < cs.len()
        invariant
            cs@ == path@,
            i <= cs@.len(),
            out@ == operation_path(cs@.subrange(0, i as int)),
        decreases cs@.len() - i,
    {
        let c = cs[i];
        if c == '/' {
            out.push('_');
        } else if c != '{' && c != '}' {
            out.push(c);
        }
        assert(cs@.subrange(0, i + 1).drop_last() =~= cs@.subrange(0, i as int));
        i = i + 1;
        assert(out@ =~= operation_path(cs@.subrange(0, i as int)));
    }
    assert(cs@.subrange(0, cs@.len() as int) =~= cs@);
    let mut r = method.to_owned();
    let tail = string_from_chars(out.as_slice());
    push_str(&mut r, tail.as_str());
    r
}

/// The group an API path belongs to: the first of the admin, client,
/// auth and remote prefixes that it starts with.
pub open spec fn spec_operation_tag(path: Seq<char>) -> Option<Seq<char>> {
    if has_prefix(path, "/api/admin"@) {
        Some("/api/admin"@)
    } else if has_prefix(path, "/api/client"@) {
        Some("/api/client"@)
    } else if has_prefix(path, "/api/auth"@) {
        Some("/api/auth"@)
    } else if has_prefix(path, "/api/remote"@) {
        Some("/api/remote"@)
    } else {
        None
    }
}

/// The tag of the operations on `path`.
pub fn operation_tag(path: &str) -> (r: Option<String>)
    ensures
        match r {
            Some(t) => spec_operation_tag(path@) == Some(t@),
            None => spec_operation_tag(path@) is None,
        },
{
    let cs = chars_of(path);
    if starts_with(cs.as_slice(), "/api/admin") {
        Some("/api/admin".to_owned())
    } else if starts_with(cs.as_slice(), "/api/client") {
        Some("/api/client".to_owned())
    } else if starts_with(cs.as_slice(), "/api/auth") {
        Some("/api/auth".to_owned())
    } else if starts_with(cs.as_slice(), "/api/remote") {
        Some("/api/remote".to_owned())
    } else {
        None
    }
}

/// The language that a translation file of the frontend holds: its file
/// name without the `.json` ending.
pub fn language_of(file_name: &str) -> (r: String)
    ensures
        r@ == trim_end_text(file_name@, ".json"@),
{
    let cs = chars_of(file_name);
    let mut n: usize = cs.len();
    proof {
        reveal_strlit(".json");
    }
    assert(cs@.subrange(0, n as int) =~= file_name@);
    while n >= 5 && ends_with(char_range(cs.as_slice(), 0, n).as_slice(), ".json")
        invariant
            n <= cs@.len(),
            cs@ == file_name@,
            ".json"@.len() == 5,
            trim_end_text(cs@.subrange(0, n as int), ".json"@) == trim_end_text(file_name@, ".json"@),
        decreases n,
    {
        assert(cs@.subrange(0, n as int).subrange(0, n - 5) =~= cs@.subrange(0, n - 5));
        n = n - 5;
    }
    proof {
        let t = cs@.subrange(0, n as int);
        if n < 5 {
            assert(!has_suffix(t, ".json"@));
        }
    }
    let kept = char_range(cs.as_slice(), 0, n);
    string_from_chars(kept.as_slice())
}

} // verus!
