//! How the panel addresses a daemon: the URL of each request, its
//! authorization header, and the paths and queries of the API operations.

use vstd::prelude::*;
use crate::ids::{uuid_hyphenated, uuid_text};
use crate::text::{chars_of, decimal, push_decimal, push_str, string_from_chars, trim_end_char, trim_end_matches, trim_start_char, trim_start_matches};

verus! {

/// Bytes that travel in a URL as themselves: ASCII letters, digits and
/// `-`, `.`, `_`, `~`.
pub open spec fn url_safe(b: u8) -> bool {
    ||| 48 <= b <= 57
    ||| 65 <= b <= 90
    ||| 97 <= b <= 122
    ||| b == 45
    ||| b == 46
    ||| b == 95
    ||| b == 126
}

/// The upper-case hexadecimal digit for `d`.
pub open spec fn upper_hex(d: nat) -> char {
    if d < 10 {
        ((48 + d) as u8) as char
    } else {
        ((55 + d) as u8) as char
    }
}

/// One byte percent-encoded, or as itself where it is safe.
pub open spec fn url_encode_byte(b: u8) -> Seq<char> {
    if url_safe(b) {
        seq![b as char]
    } else {
        seq!['%', upper_hex((b / 16) as nat), upper_hex((b % 16) as nat)]
    }
}

/// The bytes `b` percent-encoded in order.
pub open spec fn url_encoded_bytes(b: Seq<u8>) -> Seq<char>
    decreases b.len(),
{
    if b.len() == 0 {
        Seq::empty()
    } else {
        url_encoded_bytes(b.drop_last()) + url_encode_byte(b.last())
    }
}

/// The text `s` percent-encoded: each byte of its UTF-8 form.
pub open spec fn url_encoded(s: Seq<char>) -> Seq<char> {
    url_encoded_bytes(vstd::utf8::encode_utf8(s))
}

/// A character that an encoded text may hold: an ASCII letter or digit,
/// `-`, `.`, `_`, `~`, or the `%` that starts an escape.
pub open spec fn encoded_char(c: char) -> bool {
    ||| '0' <= c <= '9'
    ||| 'A' <= c <= 'Z'
    ||| 'a' <= c <= 'z'
    ||| c == '-' || c == '.' || c == '_' || c == '~' || c == '%'
}

proof fn lemma_encoded_bytes_chars(b: Seq<u8>)
    ensures
        forall|i: int| 0 <= i < url_encoded_bytes(b).len() ==> encoded_char(#[trigger] url_encoded_bytes(b)[i]),
    decreases b.len(),
{
    if b.len() > 0 {
        lemma_encoded_bytes_chars(b.drop_last());
        let x = b.last();
        let hi = (x / 16) as nat;
        let lo = (x % 16) as nat;
        assert(encoded_char(upper_hex(hi)));
        assert(encoded_char(upper_hex(lo)));
        let prev = url_encoded_bytes(b.drop_last());
        let tail = url_encode_byte(x);
        assert forall|i: int| 0 <= i < tail.len() implies encoded_char(#[trigger] tail[i]) by {}
        assert forall|i: int| 0 <= i < url_encoded_bytes(b).len() implies encoded_char(
            #[trigger] url_encoded_bytes(b)[i],
        ) by {
            if i < prev.len() {
                assert(url_encoded_bytes(b)[i] == prev[i]);
            } else {
                assert(url_encoded_bytes(b)[i] == tail[i - prev.len()]);
            }
        }
    }
}

/// Whatever a text holds, its encoded form holds only letters, digits,
/// `-`, `.`, `_`, `~` and `%`: a value put in a query or a path cannot
/// end the value or start another (no `&`, `=`, `?`, `#`, `/` or space).
pub proof fn law_encoded_chars(s: Seq<char>)
    ensures
        forall|i: int| 0 <= i < url_encoded(s).len() ==> encoded_char(#[trigger] url_encoded(s)[i]),
{
    lemma_encoded_bytes_chars(vstd::utf8::encode_utf8(s));
}

/// Percent-encodes a text for a query (`urlencoding::encode`).
///
/// Claims what the crate's source does: every byte of the UTF-8 form but
/// ASCII letters, digits and `-`, `.`, `_`, `~` becomes `%` and two
/// upper-case hexadecimal digits.
#[verifier::external_body]
fn url_encode(s: &str) -> (r: String)
    ensures
        r@ == url_encoded(s@),
{
    urlencoding::encode(s).into_owned()
}

/// A client of one daemon: its base URL and the token it is addressed
/// with.
pub struct WingsClient {
    base_url: String,
    token: String,
}

impl View for WingsClient {
    type V = (Seq<char>, Seq<char>);

    closed spec fn view(&self) -> (Seq<char>, Seq<char>) {
        (self.base_url@, self.token@)
    }
}

/// The URL of an API operation: the base URL without trailing slashes,
/// then the operation's path.
pub open spec fn request_url_of(base_url: Seq<char>, endpoint: Seq<char>) -> Seq<char> {
    trim_end_char(base_url, '/') + endpoint
}

/// The URL of a raw request: the base URL and the path without the
/// slashes at their seam, joined by one slash.
pub open spec fn raw_url_of(base_url: Seq<char>, endpoint: Seq<char>) -> Seq<char> {
    trim_end_char(base_url, '/') + seq!['/'] + trim_start_char(endpoint, '/')
}

/// The authorization header for a token: none for an empty token, else
/// the token as a bearer credential.
pub open spec fn authorization_of(token: Seq<char>) -> Option<Seq<char>> {
    if token.len() == 0 {
        None
    } else {
        Some("Bearer "@ + token)
    }
}

impl WingsClient {
    /// A client of the daemon at `base_url`, addressed with `token`.
    pub fn new(base_url: String, token: String) -> (r: Self)
        ensures
            r@ == (base_url@, token@),
    {
        WingsClient { base_url, token }
    }

    /// The URL of the API operation at `endpoint`.
    pub fn request_url(&self, endpoint: &str) -> (r: String)
        ensures
            r@ == request_url_of(self@.0, endpoint@),
    {
        let base = chars_of(self.base_url.as_str());
        let trimmed = trim_end_matches(base.as_slice(), '/');
        let mut r = string_from_chars(trimmed.as_slice());
        push_str(&mut r, endpoint);
        r
    }

    /// The URL of a raw request to `endpoint`.
    pub fn raw_url(&self, endpoint: &str) -> (r: String)
        ensures
            r@ == raw_url_of(self@.0, endpoint@),
    {
        let base = chars_of(self.base_url.as_str());
        let trimmed = trim_end_matches(base.as_slice(), '/');
        let mut r = string_from_chars(trimmed.as_slice());
        push_str(&mut r, "/");
        let path = chars_of(endpoint);
        let rest = trim_start_matches(path.as_slice(), '/');
        let rest = string_from_chars(rest.as_slice());
        push_str(&mut r, rest.as_str());
        proof {
            reveal_strlit("/");
        }
        r
    }

    /// The authorization header that requests carry, if any.
    pub fn authorization(&self) -> (r: Option<String>)
        ensures
            match r {
                Some(h) => authorization_of(self@.1) == Some(h@),
                None => authorization_of(self@.1) is None,
            },
    {
        if self.token.as_str().unicode_len() == 0 {
            None
        } else {
            let mut h = "Bearer ".to_owned();
            push_str(&mut h, self.token.as_str());
            Some(h)
        }
    }
}

/// The headers of a request other than the authorization: answers are
/// asked for as MessagePack, and a body, where there is one, is sent as
/// MessagePack.
pub open spec fn request_headers_of(has_body: bool) -> Seq<(Seq<char>, Seq<char>)> {
    seq![("Accept"@, "application/msgpack"@)] + if has_body {
        seq![("Content-Type"@, "application/msgpack"@)]
    } else {
        Seq::empty()
    }
}

/// The headers of a request other than the authorization.
pub fn request_headers(has_body: bool) -> (r: Vec<(&'static str, &'static str)>)
    ensures
        r@.map_values(|h: (&'static str, &'static str)| (h.0@, h.1@)) == request_headers_of(has_body),
{
    let mut r: Vec<(&'static str, &'static str)> = Vec::new();
    r.push(("Accept", "application/msgpack"));
    if has_body {
        r.push(("Content-Type", "application/msgpack"));
    }
    assert(r@.map_values(|h: (&'static str, &'static str)| (h.0@, h.1@)) =~= request_headers_of(has_body));
    r
}

/// The bytes a request carries: the encoded body where there is one (the
/// caller encodes it as MessagePack with field names), else the raw text
/// as UTF-8, else nothing. A request with an encoded body is the one whose
/// headers name its content type (`request_headers(true)`).
pub fn request_body(encoded: Option<Vec<u8>>, raw: Option<String>) -> (r: Option<Vec<u8>>)
    ensures
        match encoded {
            Some(b) => r matches Some(v) && v@ == b@,
            None => match raw {
                Some(t) => r matches Some(v) && v@ == vstd::utf8::encode_utf8(t@),
                None => r is None,
            },
        },
{
    match encoded {
        Some(b) => Some(b),
        None => match raw {
            Some(t) => Some(t.as_str().as_bytes_vec()),
            None => None,
        },
    }
}

/// How a request to the daemon failed.
#[derive(Debug, PartialEq, Eq)]
pub enum WingsFailure {
    /// The daemon answered with a status outside 200 to 299; `error` is the
    /// error its body carries, or why the body could not be read or decoded.
    Http { status: u16, error: String },
    /// The request could not be sent, or its answer could not be read.
    Transport(String),
    /// The answer's body was no value of the expected shape.
    Decode(String),
}

/// Whether the daemon's status counts as success: 200 to 299.
pub open spec fn is_success(status: u16) -> bool {
    200 <= status <= 299
}

/// What a request comes to once the daemon has answered `status`: the
/// decoded body (`decoded`, or why decoding failed) on success; otherwise
/// the status with the error read from the error body (`error_body`: the
/// body's `error`, or why it could not be read or decoded).
pub fn answer_outcome<T>(status: u16, decoded: Result<T, String>, error_body: Result<String, String>) -> (r: Result<T, WingsFailure>)
    ensures
        is_success(status) ==> (match decoded {
            Ok(v) => r == Ok::<T, WingsFailure>(v),
            Err(e) => r matches Err(WingsFailure::Decode(m)) && m@ == e@,
        }),
        !is_success(status) ==> (r matches Err(WingsFailure::Http { status: s, error: m }) && s == status && m@
            == match error_body {
            Ok(t) => t@,
            Err(e) => e@,
        }),
{
    if 200 <= status && status <= 299 {
        match decoded {
            Ok(v) => Ok(v),
            Err(e) => Err(WingsFailure::Decode(e)),
        }
    } else {
        let error = match error_body {
            Ok(t) => t,
            Err(e) => e,
        };
        Err(WingsFailure::Http { status, error })
    }
}

/// `/api/servers/{server}` followed by `suffix`.
pub open spec fn server_path_of(server: u128, suffix: Seq<char>) -> Seq<char> {
    "/api/servers/"@ + uuid_hyphenated(server as nat) + suffix
}

/// The path of an operation on a server: `/api/servers/{server}` and the
/// rest of the path.
pub fn server_path(server: u128, suffix: &str) -> (r: String)
    ensures
        r@ == server_path_of(server, suffix@),
{
    let mut r = "/api/servers/".to_owned();
    let id = uuid_text(server);
    push_str(&mut r, id.as_str());
    push_str(&mut r, suffix);
    r
}

/// `/api/servers/{server}/{kind}/{item}` followed by `suffix`.
pub open spec fn server_item_path_of(server: u128, kind: Seq<char>, item: u128, suffix: Seq<char>) -> Seq<char> {
    server_path_of(server, seq!['/'] + kind + seq!['/'] + uuid_hyphenated(item as nat) + suffix)
}

/// The path of an operation on one item of a server, such as a backup or a
/// schedule: `/api/servers/{server}/{kind}/{item}` and the rest.
pub fn server_item_path(server: u128, kind: &str, item: u128, suffix: &str) -> (r: String)
    ensures
        r@ == server_item_path_of(server, kind@, item, suffix@),
{
    let mut rest = "/".to_owned();
    push_str(&mut rest, kind);
    push_str(&mut rest, "/");
    let id = uuid_text(item);
    push_str(&mut rest, id.as_str());
    push_str(&mut rest, suffix);
    proof {
        reveal_strlit("/");
    }
    let r = server_path(server, rest.as_str());
    assert(r@ =~= server_item_path_of(server, kind@, item, suffix@));
    r
}

/// `/api/backups/{backup}`.
pub fn backup_path(backup: u128) -> (r: String)
    ensures
        r@ == "/api/backups/"@ + uuid_hyphenated(backup as nat),
{
    let mut r = "/api/backups/".to_owned();
    let id = uuid_text(backup);
    push_str(&mut r, id.as_str());
    r
}

/// `/api/transfers/{server}`.
pub fn transfer_path(server: u128) -> (r: String)
    ensures
        r@ == "/api/transfers/"@ + uuid_hyphenated(server as nat),
{
    let mut r = "/api/transfers/".to_owned();
    let id = uuid_text(server);
    push_str(&mut r, id.as_str());
    r
}

/// The text of a flag in a query.
pub open spec fn bool_text(b: bool) -> Seq<char> {
    if b {
        "true"@
    } else {
        "false"@
    }
}

/// The path that reads a file of a server.
pub open spec fn files_contents_path_of(server: u128, file: Seq<char>, download: bool, max_size: u64) -> Seq<char> {
    server_path_of(
        server,
        "/files/contents?file="@ + url_encoded(file) + "&download="@ + bool_text(download)
            + "&max_size="@ + decimal(max_size as nat),
    )
}

/// The path that reads `file` of a server, whole or as a download, up to
/// `max_size` bytes.
pub fn files_contents_path(server: u128, file: &str, download: bool, max_size: u64) -> (r: String)
    ensures
        r@ == files_contents_path_of(server, file@, download, max_size),
{
    let mut q = "/files/contents?file=".to_owned();
    let f = url_encode(file);
    push_str(&mut q, f.as_str());
    push_str(&mut q, "&download=");
    push_str(&mut q, if download { "true" } else { "false" });
    push_str(&mut q, "&max_size=");
    push_decimal(&mut q, max_size);
    let r = server_path(server, q.as_str());
    assert(r@ =~= files_contents_path_of(server, file@, download, max_size));
    r
}

/// The encoded texts `v`, joined by `sep`.
pub open spec fn encoded_joined(v: Seq<Seq<char>>, sep: Seq<char>) -> Seq<char>
    decreases v.len(),
{
    if v.len() == 0 {
        Seq::empty()
    } else if v.len() == 1 {
        url_encoded(v[0])
    } else {
        encoded_joined(v.drop_last(), sep) + sep + url_encoded(v.last())
    }
}

/// Appends the texts `v`, each encoded, joined by `sep`.
fn push_encoded_joined(out: &mut String, v: &Vec<String>, sep: &str)
    ensures
        final(out)@ == old(out)@ + encoded_joined(v@.map_values(|s: String| s@), sep@),
{
    let ghost vs = v@.map_values(|s: String| s@);
    let mut i: usize = 0;
    while i < v.len()
        invariant
            i <= v@.len(),
            vs == v@.map_values(|s: String| s@),
            out@ == old(out)@ + encoded_joined(vs.subrange(0, i as int), sep@),
        decreases v@.len() - i,
    {
        if i > 0 {
            push_str(out, sep);
        }
        let e = url_encode(v[i].as_str());
        push_str(out, e.as_str());
        proof {
            let pre = vs.subrange(0, i as int);
            let next = vs.subrange(0, i + 1);
            assert(next.drop_last() =~= pre);
            assert(next.last() == v@[i as int]@);
            if i == 0 {
                assert(encoded_joined(next, sep@) == url_encoded(next[0]));
            } else {
                assert(encoded_joined(next, sep@) == encoded_joined(pre, sep@) + sep@ + url_encoded(next.last()));
            }
            assert(out@ =~= old(out)@ + encoded_joined(next, sep@));
        }
        i = i + 1;
    }
    assert(vs.subrange(0, v@.len() as int) =~= vs);
}

/// The path that fingerprints files of a server.
pub open spec fn files_fingerprints_path_of(server: u128, algorithm: Seq<char>, files: Seq<Seq<char>>) -> Seq<char> {
    server_path_of(
        server,
        "/files/fingerprints?algorithm="@ + algorithm + "&files="@ + encoded_joined(files, "&files="@),
    )
}

/// The path that fingerprints `files` of a server with the algorithm
/// named `algorithm`; each file is encoded and repeats the `files` key.
pub fn files_fingerprints_path(server: u128, algorithm: &str, files: &Vec<String>) -> (r: String)
    ensures
        r@ == files_fingerprints_path_of(server, algorithm@, files@.map_values(|s: String| s@)),
{
    let mut q = "/files/fingerprints?algorithm=".to_owned();
    push_str(&mut q, algorithm);
    push_str(&mut q, "&files=");
    push_encoded_joined(&mut q, files, "&files=");
    let r = server_path(server, q.as_str());
    assert(r@ =~= files_fingerprints_path_of(server, algorithm@, files@.map_values(|s: String| s@)));
    r
}

/// The path that lists a directory of a server.
pub open spec fn files_list_path_of(
    server: u128,
    directory: Seq<char>,
    ignored: Seq<Seq<char>>,
    per_page: u64,
    page: u64,
    sort: Seq<char>,
) -> Seq<char> {
    server_path_of(
        server,
        "/files/list?directory="@ + url_encoded(directory) + "&ignored="@ + encoded_joined(
            ignored,
            "&ignored="@,
        ) + "&per_page="@ + decimal(per_page as nat) + "&page="@ + decimal(page as nat) + "&sort="@
            + sort,
    )
}

/// The path that lists `directory` of a server, one page of `per_page`
/// entries sorted by the mode named `sort`, leaving out `ignored`.
pub fn files_list_path(
    server: u128,
    directory: &str,
    ignored: &Vec<String>,
    per_page: u64,
    page: u64,
    sort: &str,
) -> (r: String)
    ensures
        r@ == files_list_path_of(server, directory@, ignored@.map_values(|s: String| s@), per_page, page, sort@),
{
    let mut q = "/files/list?directory=".to_owned();
    let d = url_encode(directory);
    push_str(&mut q, d.as_str());
    push_str(&mut q, "&ignored=");
    push_encoded_joined(&mut q, ignored, "&ignored=");
    push_str(&mut q, "&per_page=");
    push_decimal(&mut q, per_page);
    push_str(&mut q, "&page=");
    push_decimal(&mut q, page);
    push_str(&mut q, "&sort=");
    push_str(&mut q, sort);
    let r = server_path(server, q.as_str());
    assert(r@ =~= files_list_path_of(server, directory@, ignored@.map_values(|s: String| s@), per_page, page, sort@));
    r
}

/// The path that lists only the directories under `directory`.
pub fn files_list_directory_path(server: u128, directory: &str) -> (r: String)
    ensures
        r@ == server_path_of(server, "/files/list-directory?directory="@ + url_encoded(directory@)),
{
    let mut q = "/files/list-directory?directory=".to_owned();
    let d = url_encode(directory);
    push_str(&mut q, d.as_str());
    server_path(server, q.as_str())
}

/// The path that writes `file` of a server.
pub fn files_write_path(server: u128, file: &str) -> (r: String)
    ensures
        r@ == server_path_of(server, "/files/write?file="@ + url_encoded(file@)),
{
    let mut q = "/files/write?file=".to_owned();
    let f = url_encode(file);
    push_str(&mut q, f.as_str());
    server_path(server, q.as_str())
}

/// The path that reads the last `lines` lines of a server's console log,
/// or of its installation log.
pub fn logs_path(server: u128, install: bool, lines: u64) -> (r: String)
    ensures
        r@ == server_path_of(
            server,
            (if install {
                "/logs/install?lines="@
            } else {
                "/logs?lines="@
            }) + decimal(lines as nat),
        ),
{
    let mut q = if install {
        "/logs/install?lines=".to_owned()
    } else {
        "/logs?lines=".to_owned()
    };
    push_decimal(&mut q, lines);
    server_path(server, q.as_str())
}

/// The path that asks a server's version of the game named `game`.
pub fn version_path(server: u128, game: &str) -> (r: String)
    ensures
        r@ == server_path_of(server, "/version?game="@ + game@),
{
    let mut q = "/version?game=".to_owned();
    push_str(&mut q, game);
    server_path(server, q.as_str())
}

/// The path that reads the last `lines` lines of the daemon's log `file`.
pub fn system_logs_file_path(file: &str, lines: u64) -> (r: String)
    ensures
        r@ == "/api/system/logs/"@ + file@ + "?lines="@ + decimal(lines as nat),
{
    let mut r = "/api/system/logs/".to_owned();
    push_str(&mut r, file);
    push_str(&mut r, "?lines=");
    push_decimal(&mut r, lines);
    r
}

} // verus!
