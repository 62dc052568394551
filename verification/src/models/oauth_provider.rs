//! OAuth providers: where users sign in from, and how the panel reads a
//! user's identity from the provider's answer.

use vstd::prelude::*;
use crate::models::{append_columns, column_list, column_pairs, pair_views, prefix_text, prefixed_columns};
use crate::models::{pick, set_if, ModelError};
use crate::random::{is_ascii_alphanumeric, random_alphanumeric};
use crate::text::push_str;
use crate::validation::{texts, flag, chars_within, opt_chars_within, opt2_chars_within, note, text_within, opt_text_within, opt2_text_within};

verus! {

/// An OAuth provider as the panel stores it; the client secret is held
/// encrypted.
pub struct OAuthProvider {
    pub uuid: u128,
    pub name: String,
    pub description: Option<String>,
    pub client_id: String,
    pub client_secret: Vec<u8>,
    pub auth_url: String,
    pub token_url: String,
    pub info_url: String,
    pub scopes: Vec<String>,
    pub identifier_path: String,
    pub email_path: Option<String>,
    pub username_path: Option<String>,
    pub name_first_path: Option<String>,
    pub name_last_path: Option<String>,
    pub enabled: bool,
    pub login_only: bool,
    pub link_viewable: bool,
    pub user_manageable: bool,
    pub basic_auth: bool,
    /// Microseconds since the Unix epoch.
    pub created: i64,
}

/// The first match of a JSON path: a string value, as its text, or any
/// other value, as its JSON text.
#[derive(Debug, PartialEq, Eq)]
pub enum JsonMatch {
    Text(String),
    Json(String),
}

/// A match as whether it is a string, and its text.
pub open spec fn json_match_view(m: JsonMatch) -> (bool, Seq<char>) {
    match m {
        JsonMatch::Text(t) => (true, t@),
        JsonMatch::Json(j) => (false, j@),
    }
}

/// The error that `serde_json::from_str` gives for `document` read as a
/// JSON value, as text; `None` where the document is JSON.
pub uninterp spec fn json_document_error(document: Seq<char>) -> Option<Seq<char>>;

/// The error that `serde_json_path::JsonPath::parse` gives for `path`, as
/// text; `None` where the path parses.
pub uninterp spec fn json_path_error(path: Seq<char>) -> Option<Seq<char>>;

/// The first node that the JSON path `path` selects in the JSON document
/// `document` (`JsonPath::query`, then `first`): whether it is a string,
/// and its text (a string's own text, any other value's JSON text); `None`
/// where the path selects nothing.
pub uninterp spec fn json_first_match(path: Seq<char>, document: Seq<char>) -> Option<(bool, Seq<char>)>;

/// What querying the JSON document `document` with the JSON path `path`
/// gives: the document's error where it is no JSON, else the path's error
/// where it does not parse, else the first match, if any.
pub open spec fn json_path_first(path: Seq<char>, document: Seq<char>) -> Result<Option<(bool, Seq<char>)>, Seq<char>> {
    match json_document_error(document) {
        Some(e) => Err(e),
        None => match json_path_error(path) {
            Some(e) => Err(e),
            None => Ok(json_first_match(path, document)),
        },
    }
}

/// How the JSON document `document` is written for a person (the `Debug`
/// form of `serde_json::Value`).
pub uninterp spec fn json_debug(document: Seq<char>) -> Seq<char>;

/// The view of a query's result.
pub open spec fn found_view(found: Result<Option<JsonMatch>, String>) -> Result<Option<(bool, Seq<char>)>, Seq<char>> {
    match found {
        Ok(Some(m)) => Ok(Some(json_match_view(m))),
        Ok(None) => Ok(None),
        Err(m) => Err(m@),
    }
}

/// Reads `document` as JSON (`serde_json::from_str`), queries it with the
/// JSON path `path` (`serde_json_path::JsonPath::parse`, `query`,
/// `first`), and hands out the first match: a string as its text, any
/// other value as its JSON text (`Display` of `serde_json::Value`).
///
/// Claims that the document is read first and the path parsed next, each
/// failing with its crate's error text (`json_document_error`,
/// `json_path_error`), and that a match is the crate's first
/// (`json_first_match`); the path language, the match order and the
/// wording of errors are left to the crates.
#[verifier::external_body]
fn query_first(path: &str, document: &str) -> (r: Result<Option<JsonMatch>, String>)
    ensures
        found_view(r) == match json_document_error(document@) {
            Some(e) => Err::<Option<(bool, Seq<char>)>, Seq<char>>(e),
            None => match json_path_error(path@) {
                Some(e) => Err(e),
                None => Ok(json_first_match(path@, document@)),
            },
        },
{
    let value: serde_json::Value = match serde_json::from_str(document) {
        Ok(v) => v,
        Err(e) => return Err(e.to_string()),
    };
    let compiled = match serde_json_path::JsonPath::parse(path) {
        Ok(p) => p,
        Err(e) => return Err(e.to_string()),
    };
    match compiled.query(&value).first() {
        Some(serde_json::Value::String(s)) => Ok(Some(JsonMatch::Text(s.clone()))),
        Some(v) => Ok(Some(JsonMatch::Json(v.to_string()))),
        None => Ok(None),
    }
}

/// The text an extraction gives for a match: a string's own text, any
/// other value's JSON text.
pub fn render_match(m: JsonMatch) -> (r: String)
    ensures
        r@ == json_match_view(m).1,
{
    match m {
        JsonMatch::Text(t) => t,
        JsonMatch::Json(j) => j,
    }
}

/// The `Debug` form of a JSON document (`{:?}` of `serde_json::Value`).
///
/// Claims only that the result is the crate's, named `json_debug`.
#[verifier::external_body]
fn debug_text(document: &str) -> (r: String)
    ensures
        r@ == json_debug(document@),
{
    match serde_json::from_str::<serde_json::Value>(document) {
        Ok(v) => format!("{:?}", v),
        Err(_) => String::new(),
    }
}

/// What an extraction gives where the provider names a path: the text of
/// the first match, or the refusal naming `what` and the document, or the
/// query's error.
pub open spec fn spec_extract(path: Seq<char>, document: Seq<char>, what: Seq<char>) -> Result<Seq<char>, Seq<char>> {
    match json_path_first(path, document) {
        Ok(Some(m)) => Ok(m.1),
        Ok(None) => Err("unable to extract "@ + what + " from "@ + json_debug(document)),
        Err(m) => Err(m),
    }
}

/// The view of an extraction's result.
pub open spec fn extract_view(r: Result<String, String>) -> Result<Seq<char>, Seq<char>> {
    match r {
        Ok(s) => Ok(s@),
        Err(m) => Err(m@),
    }
}

/// What an extraction gives once the path was queried: the first match
/// (`found`), or the refusal naming `what` and the document where nothing
/// matched, or the query's error.
pub open spec fn spec_extraction_outcome(
    found: Result<Option<(bool, Seq<char>)>, Seq<char>>,
    what: Seq<char>,
    document: Seq<char>,
) -> Result<Seq<char>, Seq<char>> {
    match found {
        Ok(Some(m)) => Ok(m.1),
        Ok(None) => Err("unable to extract "@ + what + " from "@ + json_debug(document)),
        Err(m) => Err(m),
    }
}

/// Turns the result of querying `document` into the extracted text, or the
/// refusal that names `what` where nothing matched.
pub fn extraction_outcome(found: Result<Option<JsonMatch>, String>, what: &str, document: &str) -> (r: Result<
    String,
    String,
>)
    ensures
        extract_view(r) == spec_extraction_outcome(found_view(found), what@, document@),
{
    match found {
        Ok(Some(t)) => Ok(render_match(t)),
        Ok(None) => {
            let mut m = "unable to extract ".to_owned();
            push_str(&mut m, what);
            push_str(&mut m, " from ");
            let d = debug_text(document);
            push_str(&mut m, d.as_str());
            Err(m)
        },
        Err(m) => Err(m),
    }
}

/// Extracts the first match of `path` in `document`, refusing with a
/// message that names `what` where nothing matches.
fn extract_with(path: &str, document: &str, what: &str) -> (r: Result<String, String>)
    ensures
        extract_view(r) == spec_extract(path@, document@, what@),
{
    let found = query_first(path, document);
    extraction_outcome(found, what, document)
}

impl OAuthProvider {
    /// The user's identifier at the provider, read from the provider's
    /// answer `document` (JSON) at the identifier path.
    pub fn extract_identifier(&self, document: &str) -> (r: Result<String, String>)
        ensures
            extract_view(r) == spec_extract(self.identifier_path@, document@, "identifier"@),
    {
        extract_with(self.identifier_path.as_str(), document, "identifier")
    }

    /// The user's e-mail address; where the provider names no path, a
    /// random address at `oauth.c7s.rs` with ten letters and digits.
    pub fn extract_email(&self, document: &str) -> (r: Result<String, String>)
        ensures
            match self.email_path {
                Some(p) => extract_view(r) == spec_extract(p@, document@, "email"@),
                None => r matches Ok(e) && e@.len() == 23 && e@.subrange(10, 23) == "@oauth.c7s.rs"@
                    && forall|i: int| 0 <= i < 10 ==> is_ascii_alphanumeric(#[trigger] e@[i]),
            },
    {
        match &self.email_path {
            Some(p) => extract_with(p.as_str(), document, "email"),
            None => {
                let mut e = random_alphanumeric(10);
                let ghost local = e@;
                push_str(&mut e, "@oauth.c7s.rs");
                proof {
                    reveal_strlit("@oauth.c7s.rs");
                    assert(e@.subrange(10, 23) =~= "@oauth.c7s.rs"@);
                    assert forall|i: int| 0 <= i < 10 implies is_ascii_alphanumeric(#[trigger] e@[i]) by {
                        assert(e@[i] == local[i]);
                    }
                }
                Ok(e)
            },
        }
    }

    /// The user's username; where the provider names no path, ten random
    /// letters and digits.
    pub fn extract_username(&self, document: &str) -> (r: Result<String, String>)
        ensures
            match self.username_path {
                Some(p) => extract_view(r) == spec_extract(p@, document@, "username"@),
                None => r matches Ok(u) && u@.len() == 10 && forall|i: int|
                    0 <= i < 10 ==> is_ascii_alphanumeric(#[trigger] u@[i]),
            },
    {
        match &self.username_path {
            Some(p) => extract_with(p.as_str(), document, "username"),
            None => Ok(random_alphanumeric(10)),
        }
    }

    /// The user's first name; `First` where the provider names no path.
    pub fn extract_name_first(&self, document: &str) -> (r: Result<String, String>)
        ensures
            match self.name_first_path {
                Some(p) => extract_view(r) == spec_extract(p@, document@, "first name"@),
                None => extract_view(r) == Ok::<Seq<char>, Seq<char>>("First"@),
            },
    {
        match &self.name_first_path {
            Some(p) => extract_with(p.as_str(), document, "first name"),
            None => Ok("First".to_owned()),
        }
    }

    /// The user's last name; `Last` where the provider names no path.
    pub fn extract_name_last(&self, document: &str) -> (r: Result<String, String>)
        ensures
            match self.name_last_path {
                Some(p) => extract_view(r) == spec_extract(p@, document@, "last name"@),
                None => extract_view(r) == Ok::<Seq<char>, Seq<char>>("Last"@),
            },
    {
        match &self.name_last_path {
            Some(p) => extract_with(p.as_str(), document, "last name"),
            None => Ok("Last".to_owned()),
        }
    }
}

/// The options that create a provider.
pub struct CreateOAuthProviderOptions {
    pub name: String,
    pub description: Option<String>,
    pub enabled: bool,
    pub login_only: bool,
    pub link_viewable: bool,
    pub user_manageable: bool,
    pub basic_auth: bool,
    pub client_id: String,
    pub client_secret: String,
    pub auth_url: String,
    pub token_url: String,
    pub info_url: String,
    pub scopes: Vec<String>,
    pub identifier_path: String,
    pub email_path: Option<String>,
    pub username_path: Option<String>,
    pub name_first_path: Option<String>,
    pub name_last_path: Option<String>,
}

/// The options that update a provider; an absent field stays as it is,
/// and `Some(None)` clears an optional one.
pub struct UpdateOAuthProviderOptions {
    pub name: Option<String>,
    pub description: Option<Option<String>>,
    pub enabled: Option<bool>,
    pub login_only: Option<bool>,
    pub link_viewable: Option<bool>,
    pub user_manageable: Option<bool>,
    pub basic_auth: Option<bool>,
    pub client_id: Option<String>,
    pub client_secret: Option<String>,
    pub auth_url: Option<String>,
    pub token_url: Option<String>,
    pub info_url: Option<String>,
    pub scopes: Option<Vec<String>>,
    pub identifier_path: Option<String>,
    pub email_path: Option<Option<String>>,
    pub username_path: Option<Option<String>>,
    pub name_first_path: Option<Option<String>>,
    pub name_last_path: Option<Option<String>>,
}

/// The offending fields among a new provider's name and endpoints.
pub open spec fn create_errors_head(o: CreateOAuthProviderOptions) -> Seq<Seq<char>> {
    flag(!chars_within(o.name@, 1, 255), "name"@)
        + flag(!opt_chars_within(o.description, 1, 1024), "description"@)
        + flag(!chars_within(o.client_id@, 3, 255), "client_id"@)
        + flag(!chars_within(o.client_secret@, 3, 255), "client_secret"@)
        + flag(!chars_within(o.auth_url@, 3, 255), "auth_url"@)
        + flag(!chars_within(o.token_url@, 3, 255), "token_url"@)
        + flag(!chars_within(o.info_url@, 3, 255), "info_url"@)
}

/// The offending fields among a new provider's scopes and identity paths.
pub open spec fn create_errors_tail(o: CreateOAuthProviderOptions) -> Seq<Seq<char>> {
    flag(!(o.scopes@.len() <= 255), "scopes"@)
        + flag(!chars_within(o.identifier_path@, 3, 255), "identifier_path"@)
        + flag(!opt_chars_within(o.email_path, 1, 255), "email_path"@)
        + flag(!opt_chars_within(o.username_path, 1, 255), "username_path"@)
        + flag(!opt_chars_within(o.name_first_path, 1, 255), "name_first_path"@)
        + flag(!opt_chars_within(o.name_last_path, 1, 255), "name_last_path"@)
}

/// The fields of creation options that break their limits, in field order.
pub open spec fn spec_create_errors(o: CreateOAuthProviderOptions) -> Seq<Seq<char>> {
    create_errors_head(o) + create_errors_tail(o)
}

/// The offending fields among an update's name and endpoints.
pub open spec fn update_errors_head(o: UpdateOAuthProviderOptions) -> Seq<Seq<char>> {
    flag(!opt_chars_within(o.name, 1, 255), "name"@)
        + flag(!opt2_chars_within(o.description, 1, 1024), "description"@)
        + flag(!opt_chars_within(o.client_id, 3, 255), "client_id"@)
        + flag(!opt_chars_within(o.client_secret, 3, 255), "client_secret"@)
        + flag(!opt_chars_within(o.auth_url, 3, 255), "auth_url"@)
        + flag(!opt_chars_within(o.token_url, 3, 255), "token_url"@)
        + flag(!opt_chars_within(o.info_url, 3, 255), "info_url"@)
}

/// The offending fields among an update's scopes and identity paths.
pub open spec fn update_errors_tail(o: UpdateOAuthProviderOptions) -> Seq<Seq<char>> {
    flag(!(match o.scopes {
        Some(s) => s@.len() <= 255,
        None => true,
    }), "scopes"@)
        + flag(!opt_chars_within(o.identifier_path, 3, 255), "identifier_path"@)
        + flag(!opt2_chars_within(o.email_path, 1, 255), "email_path"@)
        + flag(!opt2_chars_within(o.username_path, 1, 255), "username_path"@)
        + flag(!opt2_chars_within(o.name_first_path, 1, 255), "name_first_path"@)
        + flag(!opt2_chars_within(o.name_last_path, 1, 255), "name_last_path"@)
}

/// The fields of update options that break their limits, in field order.
pub open spec fn spec_update_errors(o: UpdateOAuthProviderOptions) -> Seq<Seq<char>> {
    update_errors_head(o) + update_errors_tail(o)
}

impl CreateOAuthProviderOptions {
    fn head_errors(&self) -> (errors: Vec<String>)
        ensures
            texts(errors@) == create_errors_head(*self),
    {
        let mut errors: Vec<String> = Vec::new();
        note(&mut errors, text_within(self.name.as_str(), 1, 255), "name");
        note(&mut errors, opt_text_within(&self.description, 1, 1024), "description");
        note(&mut errors, text_within(self.client_id.as_str(), 3, 255), "client_id");
        note(&mut errors, text_within(self.client_secret.as_str(), 3, 255), "client_secret");
        note(&mut errors, text_within(self.auth_url.as_str(), 3, 255), "auth_url");
        note(&mut errors, text_within(self.token_url.as_str(), 3, 255), "token_url");
        note(&mut errors, text_within(self.info_url.as_str(), 3, 255), "info_url");
        assert(texts(errors@) =~= create_errors_head(*self));
        errors
    }

    fn tail_errors(&self) -> (errors: Vec<String>)
        ensures
            texts(errors@) == create_errors_tail(*self),
    {
        let mut errors: Vec<String> = Vec::new();
        note(&mut errors, self.scopes.len() <= 255, "scopes");
        note(&mut errors, text_within(self.identifier_path.as_str(), 3, 255), "identifier_path");
        note(&mut errors, opt_text_within(&self.email_path, 1, 255), "email_path");
        note(&mut errors, opt_text_within(&self.username_path, 1, 255), "username_path");
        note(&mut errors, opt_text_within(&self.name_first_path, 1, 255), "name_first_path");
        note(&mut errors, opt_text_within(&self.name_last_path, 1, 255), "name_last_path");
        assert(texts(errors@) =~= create_errors_tail(*self));
        errors
    }

    /// The fields that break their limits, in field order; empty when the
    /// options are valid.
    pub fn validate(&self) -> (errors: Vec<String>)
        ensures
            texts(errors@) == spec_create_errors(*self),
    {
        let mut errors = self.head_errors();
        let mut tail = self.tail_errors();
        let ghost h = errors@;
        let ghost t = tail@;
        errors.append(&mut tail);
        assert(texts(errors@) =~= texts(h) + texts(t));
        errors
    }
}

impl UpdateOAuthProviderOptions {
    fn head_errors(&self) -> (errors: Vec<String>)
        ensures
            texts(errors@) == update_errors_head(*self),
    {
        let mut errors: Vec<String> = Vec::new();
        note(&mut errors, opt_text_within(&self.name, 1, 255), "name");
        note(&mut errors, opt2_text_within(&self.description, 1, 1024), "description");
        note(&mut errors, opt_text_within(&self.client_id, 3, 255), "client_id");
        note(&mut errors, opt_text_within(&self.client_secret, 3, 255), "client_secret");
        note(&mut errors, opt_text_within(&self.auth_url, 3, 255), "auth_url");
        note(&mut errors, opt_text_within(&self.token_url, 3, 255), "token_url");
        note(&mut errors, opt_text_within(&self.info_url, 3, 255), "info_url");
        assert(texts(errors@) =~= update_errors_head(*self));
        errors
    }

    fn tail_errors(&self) -> (errors: Vec<String>)
        ensures
            texts(errors@) == update_errors_tail(*self),
    {
        let mut errors: Vec<String> = Vec::new();
        let scopes_ok = match &self.scopes {
            Some(s) => s.len() <= 255,
            None => true,
        };
        note(&mut errors, scopes_ok, "scopes");
        note(&mut errors, opt_text_within(&self.identifier_path, 3, 255), "identifier_path");
        note(&mut errors, opt2_text_within(&self.email_path, 1, 255), "email_path");
        note(&mut errors, opt2_text_within(&self.username_path, 1, 255), "username_path");
        note(&mut errors, opt2_text_within(&self.name_first_path, 1, 255), "name_first_path");
        note(&mut errors, opt2_text_within(&self.name_last_path, 1, 255), "name_last_path");
        assert(texts(errors@) =~= update_errors_tail(*self));
        errors
    }

    /// The fields that break their limits, in field order; empty when the
    /// options are valid.
    pub fn validate(&self) -> (errors: Vec<String>)
        ensures
            texts(errors@) == spec_update_errors(*self),
    {
        let mut errors = self.head_errors();
        let mut tail = self.tail_errors();
        let ghost h = errors@;
        let ghost t = tail@;
        errors.append(&mut tail);
        assert(texts(errors@) =~= texts(h) + texts(t));
        errors
    }
}

/// `new` is `old` with the fields that `o` sets replaced; the client
/// secret is `enc`, the new secret as the database encrypted it.
pub open spec fn spec_provider_updated(new: OAuthProvider, old: OAuthProvider, o: UpdateOAuthProviderOptions, enc: Option<Vec<u8>>) -> bool {
    &&& new.uuid == old.uuid
    &&& new.name == pick(o.name, old.name)
    &&& new.description == pick(o.description, old.description)
    &&& new.enabled == pick(o.enabled, old.enabled)
    &&& new.login_only == pick(o.login_only, old.login_only)
    &&& new.link_viewable == pick(o.link_viewable, old.link_viewable)
    &&& new.user_manageable == pick(o.user_manageable, old.user_manageable)
    &&& new.basic_auth == pick(o.basic_auth, old.basic_auth)
    &&& new.client_id == pick(o.client_id, old.client_id)
    &&& new.client_secret == pick(enc, old.client_secret)
    &&& new.auth_url == pick(o.auth_url, old.auth_url)
    &&& new.token_url == pick(o.token_url, old.token_url)
    &&& new.info_url == pick(o.info_url, old.info_url)
    &&& new.scopes == pick(o.scopes, old.scopes)
    &&& new.identifier_path == pick(o.identifier_path, old.identifier_path)
    &&& new.email_path == pick(o.email_path, old.email_path)
    &&& new.username_path == pick(o.username_path, old.username_path)
    &&& new.name_first_path == pick(o.name_first_path, old.name_first_path)
    &&& new.name_last_path == pick(o.name_last_path, old.name_last_path)
    &&& new.created == old.created
}

/// What an applied provider update leaves: every field the options set holds
/// the options' value (the secret the encrypted one given), every field
/// they leave out keeps its old value.
pub proof fn law_provider_update_sets_fields(new: OAuthProvider, old: OAuthProvider, o: UpdateOAuthProviderOptions, enc: Option<Vec<u8>>)
    requires
        spec_provider_updated(new, old, o, enc),
    ensures
        o.name matches Some(v) ==> new.name == v,
        o.name is None ==> new.name == old.name,
        o.description matches Some(v) ==> new.description == v,
        o.description is None ==> new.description == old.description,
        o.enabled matches Some(v) ==> new.enabled == v,
        o.enabled is None ==> new.enabled == old.enabled,
        o.login_only matches Some(v) ==> new.login_only == v,
        o.login_only is None ==> new.login_only == old.login_only,
        o.link_viewable matches Some(v) ==> new.link_viewable == v,
        o.link_viewable is None ==> new.link_viewable == old.link_viewable,
        o.user_manageable matches Some(v) ==> new.user_manageable == v,
        o.user_manageable is None ==> new.user_manageable == old.user_manageable,
        o.basic_auth matches Some(v) ==> new.basic_auth == v,
        o.basic_auth is None ==> new.basic_auth == old.basic_auth,
        o.client_id matches Some(v) ==> new.client_id == v,
        o.client_id is None ==> new.client_id == old.client_id,
        enc matches Some(v) ==> new.client_secret == v,
        enc is None ==> new.client_secret == old.client_secret,
        o.auth_url matches Some(v) ==> new.auth_url == v,
        o.auth_url is None ==> new.auth_url == old.auth_url,
        o.token_url matches Some(v) ==> new.token_url == v,
        o.token_url is None ==> new.token_url == old.token_url,
        o.info_url matches Some(v) ==> new.info_url == v,
        o.info_url is None ==> new.info_url == old.info_url,
        o.scopes matches Some(v) ==> new.scopes == v,
        o.scopes is None ==> new.scopes == old.scopes,
        o.identifier_path matches Some(v) ==> new.identifier_path == v,
        o.identifier_path is None ==> new.identifier_path == old.identifier_path,
        o.email_path matches Some(v) ==> new.email_path == v,
        o.email_path is None ==> new.email_path == old.email_path,
        o.username_path matches Some(v) ==> new.username_path == v,
        o.username_path is None ==> new.username_path == old.username_path,
        o.name_first_path matches Some(v) ==> new.name_first_path == v,
        o.name_first_path is None ==> new.name_first_path == old.name_first_path,
        o.name_last_path matches Some(v) ==> new.name_last_path == v,
        o.name_last_path is None ==> new.name_last_path == old.name_last_path,
        new.uuid == old.uuid,
        new.created == old.created,
{
}

impl OAuthProvider {
    /// Applies an update; `encrypted_client_secret` is the new secret as
    /// the database encrypted it, given exactly when the options set one.
    /// Each field the options set takes its new value, every other field
    /// keeps its own.
    pub fn apply_update(&mut self, options: UpdateOAuthProviderOptions, encrypted_client_secret: Option<Vec<u8>>)
        requires
            options.client_secret is Some <==> encrypted_client_secret is Some,
        ensures
            spec_provider_updated(*final(self), *old(self), options, encrypted_client_secret),
    {
        set_if(&mut self.name, options.name);
        set_if(&mut self.description, options.description);
        set_if(&mut self.enabled, options.enabled);
        set_if(&mut self.login_only, options.login_only);
        set_if(&mut self.link_viewable, options.link_viewable);
        set_if(&mut self.user_manageable, options.user_manageable);
        set_if(&mut self.basic_auth, options.basic_auth);
        set_if(&mut self.client_id, options.client_id);
        set_if(&mut self.client_secret, encrypted_client_secret);
        set_if(&mut self.auth_url, options.auth_url);
        set_if(&mut self.token_url, options.token_url);
        set_if(&mut self.info_url, options.info_url);
        set_if(&mut self.scopes, options.scopes);
        set_if(&mut self.identifier_path, options.identifier_path);
        set_if(&mut self.email_path, options.email_path);
        set_if(&mut self.username_path, options.username_path);
        set_if(&mut self.name_first_path, options.name_first_path);
        set_if(&mut self.name_last_path, options.name_last_path);
    }

    /// Updates the provider: options that break their limits are refused
    /// and change nothing; valid options are applied.
    pub fn update(&mut self, options: UpdateOAuthProviderOptions, encrypted_client_secret: Option<Vec<u8>>) -> (r: Result<(), ModelError>)
        requires
            options.client_secret is Some <==> encrypted_client_secret is Some,
        ensures
            spec_update_errors(options).len() > 0 ==> (r matches Err(ModelError::Validation(e)) && texts(e@)
                == spec_update_errors(options) && *final(self) == *old(self)),
            spec_update_errors(options).len() == 0 ==> r is Ok && spec_provider_updated(
                *final(self),
                *old(self),
                options,
                encrypted_client_secret,
            ),
    {
        let errors = options.validate();
        if errors.len() > 0 {
            return Err(ModelError::Validation(errors));
        }
        self.apply_update(options, encrypted_client_secret);
        Ok(())
    }
}

/// A provider as users see it.
pub struct ApiOAuthProvider {
    pub uuid: u128,
    pub name: String,
    pub link_viewable: bool,
    pub user_manageable: bool,
}

/// A provider as administrators see it, with its secret decrypted.
pub struct AdminApiOAuthProvider {
    pub uuid: u128,
    pub name: String,
    pub description: Option<String>,
    pub client_id: String,
    pub client_secret: String,
    pub auth_url: String,
    pub token_url: String,
    pub info_url: String,
    pub scopes: Vec<String>,
    pub identifier_path: String,
    pub email_path: Option<String>,
    pub username_path: Option<String>,
    pub name_first_path: Option<String>,
    pub name_last_path: Option<String>,
    pub enabled: bool,
    pub login_only: bool,
    pub link_viewable: bool,
    pub user_manageable: bool,
    pub basic_auth: bool,
    pub created: i64,
}

impl OAuthProvider {
    /// The provider as users see it.
    pub fn into_api_object(self) -> (r: ApiOAuthProvider)
        ensures
            r.uuid == self.uuid,
            r.name == self.name,
            r.link_viewable == self.link_viewable,
            r.user_manageable == self.user_manageable,
    {
        ApiOAuthProvider {
            uuid: self.uuid,
            name: self.name,
            link_viewable: self.link_viewable,
            user_manageable: self.user_manageable,
        }
    }

    /// The provider as administrators see it; `client_secret` is its
    /// decrypted secret.
    pub fn into_admin_api_object(self, client_secret: String) -> (r: AdminApiOAuthProvider)
        ensures
            r.uuid == self.uuid,
            r.name == self.name,
            r.description == self.description,
            r.client_id == self.client_id,
            r.client_secret == client_secret,
            r.auth_url == self.auth_url,
            r.token_url == self.token_url,
            r.info_url == self.info_url,
            r.scopes == self.scopes,
            r.identifier_path == self.identifier_path,
            r.email_path == self.email_path,
            r.username_path == self.username_path,
            r.name_first_path == self.name_first_path,
            r.name_last_path == self.name_last_path,
            r.enabled == self.enabled,
            r.login_only == self.login_only,
            r.link_viewable == self.link_viewable,
            r.user_manageable == self.user_manageable,
            r.basic_auth == self.basic_auth,
            r.created == self.created,
    {
        AdminApiOAuthProvider {
            uuid: self.uuid,
            name: self.name,
            description: self.description,
            client_id: self.client_id,
            client_secret,
            auth_url: self.auth_url,
            token_url: self.token_url,
            info_url: self.info_url,
            scopes: self.scopes,
            identifier_path: self.identifier_path,
            email_path: self.email_path,
            username_path: self.username_path,
            name_first_path: self.name_first_path,
            name_last_path: self.name_last_path,
            enabled: self.enabled,
            login_only: self.login_only,
            link_viewable: self.link_viewable,
            user_manageable: self.user_manageable,
            basic_auth: self.basic_auth,
            created: self.created,
        }
    }
}

/// The columns of `oauth_providers`, each with the name it is read back by.
pub open spec fn oauth_provider_column_list() -> Seq<(Seq<char>, Seq<char>)> {
    seq![
        ("uuid"@, "uuid"@),
        ("name"@, "name"@),
        ("description"@, "description"@),
        ("client_id"@, "client_id"@),
        ("client_secret"@, "client_secret"@),
        ("auth_url"@, "auth_url"@),
        ("token_url"@, "token_url"@),
        ("info_url"@, "info_url"@),
        ("scopes"@, "scopes"@),
        ("identifier_path"@, "identifier_path"@),
        ("email_path"@, "email_path"@),
        ("username_path"@, "username_path"@),
        ("name_first_path"@, "name_first_path"@),
        ("name_last_path"@, "name_last_path"@),
        ("enabled"@, "enabled"@),
        ("login_only"@, "login_only"@),
        ("link_viewable"@, "link_viewable"@),
        ("user_manageable"@, "user_manageable"@),
        ("basic_auth"@, "basic_auth"@),
        ("created"@, "created"@),
    ]
}

impl OAuthProvider {
    /// The columns a query selects for a provider, read back under `prefix`.
    pub fn columns(prefix: Option<&str>) -> (r: Vec<(String, String)>)
        ensures
            pair_views(r@) == column_pairs("oauth_providers"@, oauth_provider_column_list(), prefix_text(prefix)),
    {
        let columns = vec![
            ("uuid", "uuid"),
            ("name", "name"),
            ("description", "description"),
            ("client_id", "client_id"),
            ("client_secret", "client_secret"),
            ("auth_url", "auth_url"),
            ("token_url", "token_url"),
            ("info_url", "info_url"),
            ("scopes", "scopes"),
            ("identifier_path", "identifier_path"),
            ("email_path", "email_path"),
            ("username_path", "username_path"),
            ("name_first_path", "name_first_path"),
            ("name_last_path", "name_last_path"),
            ("enabled", "enabled"),
            ("login_only", "login_only"),
            ("link_viewable", "link_viewable"),
            ("user_manageable", "user_manageable"),
            ("basic_auth", "basic_auth"),
            ("created", "created"),
        ];
        let r = prefixed_columns("oauth_providers", columns.as_slice(), prefix);
        assert(column_list(columns@) =~= oauth_provider_column_list());
        r
    }
}

} // verus!
