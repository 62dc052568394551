//! Locations: the groups that nodes belong to.

use vstd::prelude::*;
use crate::models::{append_columns, column_list, column_pairs, pair_views, prefix_text, prefixed_columns};
use crate::models::{pick, set_if};
use crate::validation::{texts, flag, chars_within, opt_chars_within, opt2_chars_within, note, text_within, opt_text_within, opt2_text_within};

verus! {

/// A location as the panel stores it.
pub struct Location {
    pub uuid: u128,
    pub backup_configuration_uuid: Option<u128>,
    pub name: String,
    pub description: Option<String>,
    /// Microseconds since the Unix epoch.
    pub created: i64,
}

/// The options that create a location.
pub struct CreateLocationOptions {
    pub backup_configuration_uuid: Option<u128>,
    pub name: String,
    pub description: Option<String>,
}

/// The options that update a location; an absent field stays as it is,
/// and `Some(None)` clears an optional one.
pub struct UpdateLocationOptions {
    pub backup_configuration_uuid: Option<Option<u128>>,
    pub name: Option<String>,
    pub description: Option<Option<String>>,
}

/// The fields of creation options that break their limits.
pub open spec fn spec_create_errors(o: CreateLocationOptions) -> Seq<Seq<char>> {
    flag(!chars_within(o.name@, 1, 255), "name"@) + flag(
        !opt_chars_within(o.description, 1, 1024),
        "description"@,
    )
}

/// The fields of update options that break their limits.
pub open spec fn spec_update_errors(o: UpdateLocationOptions) -> Seq<Seq<char>> {
    flag(!opt_chars_within(o.name, 1, 255), "name"@) + flag(
        !opt2_chars_within(o.description, 1, 1024),
        "description"@,
    )
}

impl CreateLocationOptions {
    /// The fields that break their limits; empty when the options are valid.
    pub fn validate(&self) -> (errors: Vec<String>)
        ensures
            texts(errors@) == spec_create_errors(*self),
    {
        let mut errors: Vec<String> = Vec::new();
        note(&mut errors, text_within(self.name.as_str(), 1, 255), "name");
        note(&mut errors, opt_text_within(&self.description, 1, 1024), "description");
        assert(texts(errors@) =~= spec_create_errors(*self));
        errors
    }
}

impl UpdateLocationOptions {
    /// The fields that break their limits; empty when the options are valid.
    pub fn validate(&self) -> (errors: Vec<String>)
        ensures
            texts(errors@) == spec_update_errors(*self),
    {
        let mut errors: Vec<String> = Vec::new();
        note(&mut errors, opt_text_within(&self.name, 1, 255), "name");
        note(&mut errors, opt2_text_within(&self.description, 1, 1024), "description");
        assert(texts(errors@) =~= spec_update_errors(*self));
        errors
    }
}

/// A location as administrators see it, with its backup configuration's
/// object where it could be read.
pub struct AdminApiLocation<B> {
    pub uuid: u128,
    pub backup_configuration: Option<B>,
    pub name: String,
    pub description: Option<String>,
    pub created: i64,
}

impl Location {
    /// Applies an update: each field that the options set takes its new
    /// value, every other field keeps its own.
    pub fn apply_update(&mut self, options: UpdateLocationOptions)
        ensures
            final(self).uuid == old(self).uuid,
            final(self).backup_configuration_uuid == pick(
                options.backup_configuration_uuid,
                old(self).backup_configuration_uuid,
            ),
            final(self).name == pick(options.name, old(self).name),
            final(self).description == pick(options.description, old(self).description),
            final(self).created == old(self).created,
    {
        set_if(&mut self.backup_configuration_uuid, options.backup_configuration_uuid);
        set_if(&mut self.name, options.name);
        set_if(&mut self.description, options.description);
    }

    /// The location as administrators see it.
    pub fn into_admin_api_object<B>(self, backup_configuration: Option<B>) -> (r: AdminApiLocation<B>)
        ensures
            r.uuid == self.uuid,
            r.backup_configuration == backup_configuration,
            r.name == self.name,
            r.description == self.description,
            r.created == self.created,
    {
        AdminApiLocation {
            uuid: self.uuid,
            backup_configuration,
            name: self.name,
            description: self.description,
            created: self.created,
        }
    }
}

/// The columns of `locations`, each with the name it is read back by.
pub open spec fn location_column_list() -> Seq<(Seq<char>, Seq<char>)> {
    seq![
        ("uuid"@, "uuid"@),
        ("backup_configuration_uuid"@, "location_backup_configuration_uuid"@),
        ("name"@, "name"@),
        ("description"@, "description"@),
        ("created"@, "created"@),
    ]
}

impl Location {
    /// The columns a query selects for a location, read back under `prefix`.
    pub fn columns(prefix: Option<&str>) -> (r: Vec<(String, String)>)
        ensures
            pair_views(r@) == column_pairs("locations"@, location_column_list(), prefix_text(prefix)),
    {
        let columns = vec![
            ("uuid", "uuid"),
            ("backup_configuration_uuid", "location_backup_configuration_uuid"),
            ("name", "name"),
            ("description", "description"),
            ("created", "created"),
        ];
        let r = prefixed_columns("locations", columns.as_slice(), prefix);
        assert(column_list(columns@) =~= location_column_list());
        r
    }
}

} // verus!
