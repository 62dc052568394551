//! Roles: named sets of administrator and server permissions that users
//! are given.

use vstd::prelude::*;
use crate::models::{append_columns, column_list, column_pairs, pair_views, prefix_text, prefixed_columns};
use crate::models::{pick, set_if};
use crate::validation::{texts, flag, chars_within, opt_chars_within, opt2_chars_within, note, text_within, opt_text_within, opt2_text_within};

verus! {

/// A role as the panel stores it.
pub struct Role {
    pub uuid: u128,
    pub name: String,
    pub description: Option<String>,
    pub require_two_factor: bool,
    pub admin_permissions: Vec<String>,
    pub server_permissions: Vec<String>,
    /// Microseconds since the Unix epoch.
    pub created: i64,
}

/// The options that create a role.
pub struct CreateRoleOptions {
    pub name: String,
    pub description: Option<String>,
    pub require_two_factor: bool,
    pub admin_permissions: Vec<String>,
    pub server_permissions: Vec<String>,
}

/// The options that update a role; an absent field stays as it is, and
/// `Some(None)` clears the description.
pub struct UpdateRoleOptions {
    pub name: Option<String>,
    pub description: Option<Option<String>>,
    pub require_two_factor: Option<bool>,
    pub admin_permissions: Option<Vec<String>>,
    pub server_permissions: Option<Vec<String>>,
}

/// The fields of creation options that break their limits, in field order;
/// `admin_ok` and `server_ok` tell whether the permission lists name only
/// known permissions.
pub open spec fn spec_create_errors(o: CreateRoleOptions, admin_ok: bool, server_ok: bool) -> Seq<Seq<char>> {
    flag(!chars_within(o.name@, 1, 255), "name"@)
        + flag(!opt_chars_within(o.description, 1, 1024), "description"@)
        + flag(!admin_ok, "admin_permissions"@)
        + flag(!server_ok, "server_permissions"@)
}

/// The fields of update options that break their limits, in field order;
/// the flags tell whether the permission lists given name only known
/// permissions.
pub open spec fn spec_update_errors(o: UpdateRoleOptions, admin_ok: bool, server_ok: bool) -> Seq<Seq<char>> {
    flag(!opt_chars_within(o.name, 1, 255), "name"@)
        + flag(!opt2_chars_within(o.description, 1, 1024), "description"@)
        + flag(o.admin_permissions is Some && !admin_ok, "admin_permissions"@)
        + flag(o.server_permissions is Some && !server_ok, "server_permissions"@)
}

impl CreateRoleOptions {
    /// The fields that break their limits; empty when the options are
    /// valid. Which permissions exist is the permission registry's
    /// knowledge: `admin_ok` and `server_ok` are its verdicts on the two
    /// lists.
    pub fn validate(&self, admin_ok: bool, server_ok: bool) -> (errors: Vec<String>)
        ensures
            texts(errors@) == spec_create_errors(*self, admin_ok, server_ok),
    {
        let mut errors: Vec<String> = Vec::new();
        note(&mut errors, text_within(self.name.as_str(), 1, 255), "name");
        note(&mut errors, opt_text_within(&self.description, 1, 1024), "description");
        note(&mut errors, admin_ok, "admin_permissions");
        note(&mut errors, server_ok, "server_permissions");
        assert(texts(errors@) =~= spec_create_errors(*self, admin_ok, server_ok));
        errors
    }
}

impl UpdateRoleOptions {
    /// The fields that break their limits; empty when the options are
    /// valid. `admin_ok` and `server_ok` are the permission registry's
    /// verdicts on the lists given; they count only where a list is given.
    pub fn validate(&self, admin_ok: bool, server_ok: bool) -> (errors: Vec<String>)
        ensures
            texts(errors@) == spec_update_errors(*self, admin_ok, server_ok),
    {
        let mut errors: Vec<String> = Vec::new();
        note(&mut errors, opt_text_within(&self.name, 1, 255), "name");
        note(&mut errors, opt2_text_within(&self.description, 1, 1024), "description");
        note(&mut errors, self.admin_permissions.is_none() || admin_ok, "admin_permissions");
        note(&mut errors, self.server_permissions.is_none() || server_ok, "server_permissions");
        assert(texts(errors@) =~= spec_update_errors(*self, admin_ok, server_ok));
        errors
    }
}

/// A role as administrators see it.
pub struct AdminApiRole {
    pub uuid: u128,
    pub name: String,
    pub description: Option<String>,
    pub admin_permissions: Vec<String>,
    pub server_permissions: Vec<String>,
    pub created: i64,
}

impl Role {
    /// Applies an update: each field that the options set takes its new
    /// value, every other field keeps its own.
    pub fn apply_update(&mut self, options: UpdateRoleOptions)
        ensures
            final(self).uuid == old(self).uuid,
            final(self).name == pick(options.name, old(self).name),
            final(self).description == pick(options.description, old(self).description),
            final(self).require_two_factor == pick(options.require_two_factor, old(self).require_two_factor),
            final(self).admin_permissions == pick(options.admin_permissions, old(self).admin_permissions),
            final(self).server_permissions == pick(options.server_permissions, old(self).server_permissions),
            final(self).created == old(self).created,
    {
        set_if(&mut self.name, options.name);
        set_if(&mut self.description, options.description);
        set_if(&mut self.require_two_factor, options.require_two_factor);
        set_if(&mut self.admin_permissions, options.admin_permissions);
        set_if(&mut self.server_permissions, options.server_permissions);
    }

    /// The role as administrators see it.
    pub fn into_admin_api_object(self) -> (r: AdminApiRole)
        ensures
            r.uuid == self.uuid,
            r.name == self.name,
            r.description == self.description,
            r.admin_permissions == self.admin_permissions,
            r.server_permissions == self.server_permissions,
            r.created == self.created,
    {
        AdminApiRole {
            uuid: self.uuid,
            name: self.name,
            description: self.description,
            admin_permissions: self.admin_permissions,
            server_permissions: self.server_permissions,
            created: self.created,
        }
    }
}

/// The columns of `roles`, each with the name it is read back by.
pub open spec fn role_column_list() -> Seq<(Seq<char>, Seq<char>)> {
    seq![
        ("uuid"@, "uuid"@),
        ("name"@, "name"@),
        ("description"@, "description"@),
        ("require_two_factor"@, "require_two_factor"@),
        ("admin_permissions"@, "admin_permissions"@),
        ("server_permissions"@, "server_permissions"@),
        ("created"@, "created"@),
    ]
}

impl Role {
    /// The columns a query selects for a role, read back under `prefix`.
    pub fn columns(prefix: Option<&str>) -> (r: Vec<(String, String)>)
        ensures
            pair_views(r@) == column_pairs("roles"@, role_column_list(), prefix_text(prefix)),
    {
        let columns = vec![
            ("uuid", "uuid"),
            ("name", "name"),
            ("description", "description"),
            ("require_two_factor", "require_two_factor"),
            ("admin_permissions", "admin_permissions"),
            ("server_permissions", "server_permissions"),
            ("created", "created"),
        ];
        let r = prefixed_columns("roles", columns.as_slice(), prefix);
        assert(column_list(columns@) =~= role_column_list());
        r
    }
}

} // verus!
