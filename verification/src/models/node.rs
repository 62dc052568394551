//! Nodes: the machines that run a daemon, with the URL and token the panel
//! reaches them by.

use vstd::prelude::*;
use crate::models::{append_columns, column_list, column_pairs, pair_views, prefix_text, prefixed_columns};
use crate::models::{pick, set_if, ModelError};
use crate::models::location::{location_column_list, Location};
use crate::random::{is_ascii_alphanumeric, random_alphanumeric};
use crate::text::push_str;
use crate::urls::{normalize_url, url_normalized, url_parsed};
use crate::validation::{texts, flag, chars_within, opt_chars_within, opt2_chars_within, note, text_within, opt_text_within, opt2_text_within};

verus! {

/// A node as the panel stores it. URLs are held in the form the URL
/// parser writes them; the token is held encrypted.
pub struct Node {
    pub uuid: u128,
    pub location: Location,
    pub backup_configuration_uuid: Option<u128>,
    pub name: String,
    pub description: Option<String>,
    pub deployment_enabled: bool,
    pub maintenance_enabled: bool,
    pub public_url: Option<String>,
    pub url: String,
    pub sftp_host: Option<String>,
    pub sftp_port: i32,
    pub memory: i64,
    pub disk: i64,
    pub token_id: String,
    pub token: Vec<u8>,
    /// Microseconds since the Unix epoch.
    pub created: i64,
}

/// The options that create a node.
pub struct CreateNodeOptions {
    pub location_uuid: u128,
    pub backup_configuration_uuid: Option<u128>,
    pub name: String,
    pub description: Option<String>,
    pub deployment_enabled: bool,
    pub maintenance_enabled: bool,
    pub public_url: Option<String>,
    pub url: String,
    pub sftp_host: Option<String>,
    pub sftp_port: u16,
    pub memory: i64,
    pub disk: i64,
}

/// The options that update a node; an absent field stays as it is, and
/// `Some(None)` clears an optional one.
pub struct UpdateNodeOptions {
    pub location_uuid: Option<u128>,
    pub backup_configuration_uuid: Option<Option<u128>>,
    pub name: Option<String>,
    pub description: Option<Option<String>>,
    pub deployment_enabled: Option<bool>,
    pub maintenance_enabled: Option<bool>,
    pub public_url: Option<Option<String>>,
    pub url: Option<String>,
    pub sftp_host: Option<Option<String>>,
    pub sftp_port: Option<u16>,
    pub memory: Option<i64>,
    pub disk: Option<i64>,
}

/// A URL field holds between 3 and 255 characters and is a URL.
pub open spec fn url_field_valid(s: Seq<char>) -> bool {
    chars_within(s, 3, 255) && url_normalized(s) is Some
}

/// Tests a URL field.
fn url_field_ok(s: &str) -> (r: bool)
    ensures
        r == url_field_valid(s@),
{
    text_within(s, 3, 255) && crate::urls::is_url(s)
}

/// The fields of creation options that break their limits, in field order.
pub open spec fn spec_create_errors(o: CreateNodeOptions) -> Seq<Seq<char>> {
    flag(!chars_within(o.name@, 1, 255), "name"@)
        + flag(!opt_chars_within(o.description, 1, 1024), "description"@)
        + flag(!(match o.public_url {
            Some(u) => url_field_valid(u@),
            None => true,
        }), "public_url"@)
        + flag(!url_field_valid(o.url@), "url"@)
        + flag(!opt_chars_within(o.sftp_host, 3, 255), "sftp_host"@)
        + flag(!(o.sftp_port >= 1), "sftp_port"@)
        + flag(!(o.memory >= 1), "memory"@)
        + flag(!(o.disk >= 1), "disk"@)
}

/// The fields of update options that break their limits, in field order.
pub open spec fn spec_update_errors(o: UpdateNodeOptions) -> Seq<Seq<char>> {
    flag(!opt_chars_within(o.name, 1, 255), "name"@)
        + flag(!opt2_chars_within(o.description, 1, 1024), "description"@)
        + flag(!(match o.public_url {
            Some(Some(u)) => url_field_valid(u@),
            _ => true,
        }), "public_url"@)
        + flag(!(match o.url {
            Some(u) => url_field_valid(u@),
            None => true,
        }), "url"@)
        + flag(!opt2_chars_within(o.sftp_host, 3, 255), "sftp_host"@)
        + flag(!(match o.sftp_port {
            Some(p) => p >= 1,
            None => true,
        }), "sftp_port"@)
        + flag(!(match o.memory {
            Some(m) => m >= 1,
            None => true,
        }), "memory"@)
        + flag(!(match o.disk {
            Some(d) => d >= 1,
            None => true,
        }), "disk"@)
}

impl CreateNodeOptions {
    /// The fields that break their limits; empty when the options are valid.
    pub fn validate(&self) -> (errors: Vec<String>)
        ensures
            texts(errors@) == spec_create_errors(*self),
    {
        let mut errors: Vec<String> = Vec::new();
        note(&mut errors, text_within(self.name.as_str(), 1, 255), "name");
        note(&mut errors, opt_text_within(&self.description, 1, 1024), "description");
        let public_ok = match &self.public_url {
            Some(u) => url_field_ok(u.as_str()),
            None => true,
        };
        note(&mut errors, public_ok, "public_url");
        note(&mut errors, url_field_ok(self.url.as_str()), "url");
        note(&mut errors, opt_text_within(&self.sftp_host, 3, 255), "sftp_host");
        note(&mut errors, self.sftp_port >= 1, "sftp_port");
        note(&mut errors, self.memory >= 1, "memory");
        note(&mut errors, self.disk >= 1, "disk");
        assert(texts(errors@) =~= spec_create_errors(*self));
        errors
    }
}

impl UpdateNodeOptions {
    /// The fields that break their limits; empty when the options are valid.
    pub fn validate(&self) -> (errors: Vec<String>)
        ensures
            texts(errors@) == spec_update_errors(*self),
    {
        let mut errors: Vec<String> = Vec::new();
        note(&mut errors, opt_text_within(&self.name, 1, 255), "name");
        note(&mut errors, opt2_text_within(&self.description, 1, 1024), "description");
        let public_ok = match &self.public_url {
            Some(Some(u)) => url_field_ok(u.as_str()),
            _ => true,
        };
        note(&mut errors, public_ok, "public_url");
        let url_ok = match &self.url {
            Some(u) => url_field_ok(u.as_str()),
            None => true,
        };
        note(&mut errors, url_ok, "url");
        note(&mut errors, opt2_text_within(&self.sftp_host, 3, 255), "sftp_host");
        let port_ok = match self.sftp_port {
            Some(p) => p >= 1,
            None => true,
        };
        note(&mut errors, port_ok, "sftp_port");
        let memory_ok = match self.memory {
            Some(m) => m >= 1,
            None => true,
        };
        note(&mut errors, memory_ok, "memory");
        let disk_ok = match self.disk {
            Some(d) => d >= 1,
            None => true,
        };
        note(&mut errors, disk_ok, "disk");
        assert(texts(errors@) =~= spec_update_errors(*self));
        errors
    }
}

/// A URL text in its stored form.
pub open spec fn stored_url(text: Seq<char>) -> Seq<char> {
    match url_normalized(text) {
        Some(u) => u,
        None => text,
    }
}

/// The view of an optional text.
pub open spec fn opt_text(o: Option<String>) -> Option<Seq<char>> {
    match o {
        Some(s) => Some(s@),
        None => None,
    }
}

/// The parser's message for the first URL that an update sets and that
/// is no URL: the public URL before the URL; `None` where both parse.
pub open spec fn update_url_error(o: UpdateNodeOptions) -> Option<Seq<char>> {
    match o.public_url {
        Some(Some(u)) if url_parsed(u@) is Err => Some(url_parsed(u@)->Err_0),
        _ => match o.url {
            Some(u) => match url_parsed(u@) {
                Err(m) => Some(m),
                Ok(_) => None,
            },
            None => None,
        },
    }
}

/// `new` is `old` after an update that applied in full: each field that
/// `o` sets takes its new value, URLs in their parsed form, the location
/// the one read for `o.location_uuid`; every other field is kept.
pub open spec fn spec_node_updated(new: Node, old: Node, o: UpdateNodeOptions, location: Option<Location>) -> bool {
    &&& new.uuid == old.uuid
    &&& new.location == pick(location, old.location)
    &&& new.backup_configuration_uuid == pick(o.backup_configuration_uuid, old.backup_configuration_uuid)
    &&& new.name == pick(o.name, old.name)
    &&& new.description == pick(o.description, old.description)
    &&& new.deployment_enabled == pick(o.deployment_enabled, old.deployment_enabled)
    &&& new.maintenance_enabled == pick(o.maintenance_enabled, old.maintenance_enabled)
    &&& opt_text(new.public_url) == match o.public_url {
        Some(Some(u)) => Some(stored_url(u@)),
        Some(None) => None,
        None => opt_text(old.public_url),
    }
    &&& new.url@ == match o.url {
        Some(u) => stored_url(u@),
        None => old.url@,
    }
    &&& new.sftp_host == pick(o.sftp_host, old.sftp_host)
    &&& new.sftp_port == match o.sftp_port {
        Some(p) => p as i32,
        None => old.sftp_port,
    }
    &&& new.memory == pick(o.memory, old.memory)
    &&& new.disk == pick(o.disk, old.disk)
    &&& new.token_id == old.token_id
    &&& new.token == old.token
    &&& new.created == old.created
}

/// What an applied node update leaves: every field the options set holds
/// the options' value (the location the one read for it), every field they
/// leave out keeps its old value; a new port is stored as given, and the
/// token and creation time never change.
pub proof fn law_node_update_sets_fields(new: Node, old: Node, o: UpdateNodeOptions, location: Option<Location>)
    requires
        spec_node_updated(new, old, o, location),
    ensures
        location matches Some(v) ==> new.location == v,
        location is None ==> new.location == old.location,
        o.backup_configuration_uuid matches Some(v) ==> new.backup_configuration_uuid == v,
        o.backup_configuration_uuid is None ==> new.backup_configuration_uuid == old.backup_configuration_uuid,
        o.name matches Some(v) ==> new.name == v,
        o.name is None ==> new.name == old.name,
        o.description matches Some(v) ==> new.description == v,
        o.description is None ==> new.description == old.description,
        o.deployment_enabled matches Some(v) ==> new.deployment_enabled == v,
        o.deployment_enabled is None ==> new.deployment_enabled == old.deployment_enabled,
        o.maintenance_enabled matches Some(v) ==> new.maintenance_enabled == v,
        o.maintenance_enabled is None ==> new.maintenance_enabled == old.maintenance_enabled,
        o.sftp_host matches Some(v) ==> new.sftp_host == v,
        o.sftp_host is None ==> new.sftp_host == old.sftp_host,
        o.memory matches Some(v) ==> new.memory == v,
        o.memory is None ==> new.memory == old.memory,
        o.disk matches Some(v) ==> new.disk == v,
        o.disk is None ==> new.disk == old.disk,
        new.uuid == old.uuid,
        new.token_id == old.token_id,
        new.token == old.token,
        new.created == old.created,
        o.sftp_port matches Some(p) ==> new.sftp_port == p as i32,
        o.sftp_port is None ==> new.sftp_port == old.sftp_port,
        o.url is None ==> new.url@ == old.url@,
        o.public_url is None ==> opt_text(new.public_url) == opt_text(old.public_url),
        o.public_url == Some(None::<String>) ==> new.public_url is None,
{
}

/// The first related record that an update names and that does not
/// exist, by kind: the location, then the backup configuration.
pub open spec fn node_relation_refusal(o: UpdateNodeOptions, location_found: bool, backup_configuration_exists: bool) -> Option<Seq<char>> {
    if o.location_uuid is Some && !location_found {
        Some("location"@)
    } else if (match o.backup_configuration_uuid {
        Some(Some(_)) => !backup_configuration_exists,
        _ => false,
    }) {
        Some("backup_configuration"@)
    } else {
        None
    }
}

/// The location an update moves the node to: the one read for the
/// location it names.
pub open spec fn named_location(o: UpdateNodeOptions, location: Option<Location>) -> Option<Location> {
    if o.location_uuid is Some {
        location
    } else {
        None
    }
}

impl Node {
    /// Applies an update whose relations were checked: `location` is the
    /// location that `options.location_uuid` names, read before. Fields
    /// change in field order; URLs are parsed as they are set, and one that
    /// does not parse ends the update with the parser's message, the
    /// fields before it changed and the others not.
    pub fn apply_update(&mut self, options: UpdateNodeOptions, location: Option<Location>) -> (r: Result<(), String>)
        requires
            options.location_uuid is Some <==> location is Some,
        ensures
            match update_url_error(options) {
                Some(m) => r matches Err(e) && e@ == m,
                None => r is Ok,
            },
            final(self).uuid == old(self).uuid,
            final(self).location == pick(location, old(self).location),
            final(self).backup_configuration_uuid == pick(
                options.backup_configuration_uuid,
                old(self).backup_configuration_uuid,
            ),
            final(self).name == pick(options.name, old(self).name),
            final(self).description == pick(options.description, old(self).description),
            final(self).deployment_enabled == pick(options.deployment_enabled, old(self).deployment_enabled),
            final(self).maintenance_enabled == pick(options.maintenance_enabled, old(self).maintenance_enabled),
            opt_text(final(self).public_url) == match options.public_url {
                Some(Some(u)) => match url_normalized(u@) {
                    Some(n) => Some(n),
                    None => opt_text(old(self).public_url),
                },
                Some(None) => None,
                None => opt_text(old(self).public_url),
            },
            r is Ok ==> final(self).url@ == match options.url {
                Some(u) => stored_url(u@),
                None => old(self).url@,
            },
            r is Err ==> final(self).url == old(self).url,
            r is Ok ==> {
                &&& final(self).sftp_host == pick(options.sftp_host, old(self).sftp_host)
                &&& final(self).sftp_port == match options.sftp_port {
                    Some(p) => p as i32,
                    None => old(self).sftp_port,
                }
                &&& final(self).memory == pick(options.memory, old(self).memory)
                &&& final(self).disk == pick(options.disk, old(self).disk)
            },
            r is Err ==> {
                &&& final(self).sftp_host == old(self).sftp_host
                &&& final(self).sftp_port == old(self).sftp_port
                &&& final(self).memory == old(self).memory
                &&& final(self).disk == old(self).disk
            },
            final(self).token_id == old(self).token_id,
            final(self).token == old(self).token,
            final(self).created == old(self).created,
            r is Ok ==> spec_node_updated(*final(self), *old(self), options, location),
    {
        set_if(&mut self.location, location);
        set_if(&mut self.backup_configuration_uuid, options.backup_configuration_uuid);
        set_if(&mut self.name, options.name);
        set_if(&mut self.description, options.description);
        set_if(&mut self.deployment_enabled, options.deployment_enabled);
        set_if(&mut self.maintenance_enabled, options.maintenance_enabled);
        match options.public_url {
            Some(Some(u)) => match normalize_url(u.as_str()) {
                Ok(n) => {
                    self.public_url = Some(n);
                },
                Err(m) => {
                    return Err(m);
                },
            },
            Some(None) => {
                self.public_url = None;
            },
            None => {},
        }
        if let Some(u) = options.url {
            match normalize_url(u.as_str()) {
                Ok(n) => {
                    self.url = n;
                },
                Err(m) => {
                    return Err(m);
                },
            }
        }
        set_if(&mut self.sftp_host, options.sftp_host);
        if let Some(p) = options.sftp_port {
            self.sftp_port = p as i32;
        }
        set_if(&mut self.memory, options.memory);
        set_if(&mut self.disk, options.disk);
        Ok(())
    }

    /// Updates the node. Options that break their limits (URLs that do not
    /// parse among them) are refused; then a location or backup
    /// configuration that the options name and that does not exist
    /// (`location` is the one read for `options.location_uuid`). A refused
    /// update changes nothing; a valid one is applied.
    #[verifier::spinoff_prover]
    #[verifier::rlimit(40)]
    pub fn update(&mut self, options: UpdateNodeOptions, location: Option<Location>, backup_configuration_exists: bool) -> (r:
        Result<(), ModelError>)
        ensures
            spec_update_errors(options).len() > 0 ==> (r matches Err(ModelError::Validation(e)) && texts(e@)
                == spec_update_errors(options) && *final(self) == *old(self)),
            spec_update_errors(options).len() == 0 ==> match node_relation_refusal(
                options,
                location is Some,
                backup_configuration_exists,
            ) {
                Some(k) => r matches Err(ModelError::InvalidRelation(m)) && m@ == k && *final(self) == *old(self),
                None => r is Ok && spec_node_updated(*final(self), *old(self), options, named_location(options, location)),
            },
    {
        let errors = options.validate();
        if errors.len() > 0 {
            return Err(ModelError::Validation(errors));
        }
        if options.location_uuid.is_some() && location.is_none() {
            return Err(ModelError::InvalidRelation("location".to_owned()));
        }
        if let Some(Some(_)) = options.backup_configuration_uuid {
            if !backup_configuration_exists {
                return Err(ModelError::InvalidRelation("backup_configuration".to_owned()));
            }
        }
        let target = if options.location_uuid.is_some() {
            location
        } else {
            None
        };
        proof {
            assert(update_url_error(options) is None);
        }
        let applied = self.apply_update(options, target);
        assert(applied is Ok);
        Ok(())
    }

    /// The URL that users reach the node by: its public URL, else its URL.
    pub fn public_url(&self) -> (r: String)
        ensures
            r@ == match self.public_url {
                Some(p) => p@,
                None => self.url@,
            },
    {
        match &self.public_url {
            Some(p) => p.clone(),
            None => self.url.clone(),
        }
    }
}

/// A node's token identifier and token, freshly drawn.
pub struct NodeToken {
    pub token_id: String,
    pub token: String,
}

/// A token identifier has 16 characters, a token 64, all ASCII letters
/// and digits.
pub open spec fn token_shape(t: NodeToken) -> bool {
    &&& t.token_id@.len() == 16
    &&& t.token@.len() == 64
    &&& forall|i: int| 0 <= i < t.token_id@.len() ==> is_ascii_alphanumeric(#[trigger] t.token_id@[i])
    &&& forall|i: int| 0 <= i < t.token@.len() ==> is_ascii_alphanumeric(#[trigger] t.token@[i])
}

impl NodeToken {
    /// Draws a new token identifier and token for a node.
    pub fn generate() -> (r: Self)
        ensures
            token_shape(r),
    {
        let token_id = random_alphanumeric(16);
        let token = random_alphanumeric(64);
        NodeToken { token_id, token }
    }
}

/// Compares a node's decrypted token with the one a request presents; every
/// byte is looked at, whatever the first difference.
pub fn token_matches(stored: &[u8], given: &[u8]) -> (r: bool)
    ensures
        r == (stored@ == given@),
{
    if stored.len() != given.len() {
        return false;
    }
    let mut same = true;
    let mut i: usize = 0;
    while i < stored.len()
        invariant
            stored@.len() == given@.len(),
            i <= stored@.len(),
            same == (forall|j: int| 0 <= j < i ==> stored@[j] == given@[j]),
        decreases stored@.len() - i,
    {
        if stored[i] != given[i] {
            same = false;
        }
        i = i + 1;
    }
    if same {
        assert(stored@ =~= given@);
    }
    same
}

/// The cache key of a node looked up by its token.
pub fn token_cache_key(token_id: &str, token: &str) -> (r: String)
    ensures
        r@ == "node::token::"@ + token_id@ + "."@ + token@,
{
    let mut r = "node::token::".to_owned();
    push_str(&mut r, token_id);
    push_str(&mut r, ".");
    push_str(&mut r, token);
    r
}

/// A node as administrators see it, with its token decrypted.
pub struct AdminApiNode<L, B> {
    pub uuid: u128,
    pub location: L,
    pub backup_configuration: Option<B>,
    pub name: String,
    pub description: Option<String>,
    pub deployment_enabled: bool,
    pub maintenance_enabled: bool,
    pub public_url: Option<String>,
    pub url: String,
    pub sftp_host: Option<String>,
    pub sftp_port: i32,
    pub memory: i64,
    pub disk: i64,
    pub token_id: String,
    pub token: String,
    pub created: i64,
}

impl Node {
    /// The node as administrators see it.
    pub fn into_admin_api_object<L, B>(self, location: L, backup_configuration: Option<B>, token: String) -> (r:
        AdminApiNode<L, B>)
        ensures
            r.uuid == self.uuid,
            r.location == location,
            r.backup_configuration == backup_configuration,
            r.name == self.name,
            r.description == self.description,
            r.deployment_enabled == self.deployment_enabled,
            r.maintenance_enabled == self.maintenance_enabled,
            r.public_url == self.public_url,
            r.url == self.url,
            r.sftp_host == self.sftp_host,
            r.sftp_port == self.sftp_port,
            r.memory == self.memory,
            r.disk == self.disk,
            r.token_id == self.token_id,
            r.token == token,
            r.created == self.created,
    {
        AdminApiNode {
            uuid: self.uuid,
            location,
            backup_configuration,
            name: self.name,
            description: self.description,
            deployment_enabled: self.deployment_enabled,
            maintenance_enabled: self.maintenance_enabled,
            public_url: self.public_url,
            url: self.url,
            sftp_host: self.sftp_host,
            sftp_port: self.sftp_port,
            memory: self.memory,
            disk: self.disk,
            token_id: self.token_id,
            token,
            created: self.created,
        }
    }
}

/// How long a node's configuration stays cached, in seconds.
pub const NODE_CONFIGURATION_TTL: u64 = 120;

/// How long the resource usage of a node's servers stays cached, in
/// seconds.
pub const NODE_SERVER_RESOURCES_TTL: u64 = 15;

/// The cache key of a node's configuration (`what` is `configuration`)
/// or of its servers' resources (`server_resources`).
pub fn node_cache_key(node: u128, what: &str) -> (r: String)
    ensures
        r@ == "node::"@ + crate::ids::uuid_hyphenated(node as nat) + "::"@ + what@,
{
    let mut r = "node::".to_owned();
    let u = crate::ids::uuid_text(node);
    push_str(&mut r, u.as_str());
    push_str(&mut r, "::");
    push_str(&mut r, what);
    r
}

/// The columns of `nodes`, each with the name it is read back by.
pub open spec fn node_column_list() -> Seq<(Seq<char>, Seq<char>)> {
    seq![
        ("uuid"@, "uuid"@),
        ("backup_configuration_uuid"@, "node_backup_configuration_uuid"@),
        ("name"@, "name"@),
        ("description"@, "description"@),
        ("deployment_enabled"@, "deployment_enabled"@),
        ("maintenance_enabled"@, "maintenance_enabled"@),
        ("public_url"@, "public_url"@),
        ("url"@, "url"@),
        ("sftp_host"@, "sftp_host"@),
        ("sftp_port"@, "sftp_port"@),
        ("memory"@, "memory"@),
        ("disk"@, "disk"@),
        ("token_id"@, "token_id"@),
        ("token"@, "token"@),
        ("created"@, "created"@),
    ]
}

impl Node {
    /// The columns a query selects for a node, read back under `prefix`,
    /// followed by those of its location under `location_`.
    pub fn columns(prefix: Option<&str>) -> (r: Vec<(String, String)>)
        ensures
            pair_views(r@) == column_pairs("nodes"@, node_column_list(), prefix_text(prefix)) + column_pairs(
                "locations"@,
                location_column_list(),
                "location_"@,
            ),
    {
        let columns = vec![
            ("uuid", "uuid"),
            ("backup_configuration_uuid", "node_backup_configuration_uuid"),
            ("name", "name"),
            ("description", "description"),
            ("deployment_enabled", "deployment_enabled"),
            ("maintenance_enabled", "maintenance_enabled"),
            ("public_url", "public_url"),
            ("url", "url"),
            ("sftp_host", "sftp_host"),
            ("sftp_port", "sftp_port"),
            ("memory", "memory"),
            ("disk", "disk"),
            ("token_id", "token_id"),
            ("token", "token"),
            ("created", "created"),
        ];
        let own = prefixed_columns("nodes", columns.as_slice(), prefix);
        assert(column_list(columns@) =~= node_column_list());
        let location = Location::columns(Some("location_"));
        append_columns(own, location)
    }
}

} // verus!
