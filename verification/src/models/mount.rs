//! Mounts: folders of a node's host that servers may have mounted.

use vstd::prelude::*;
use crate::models::{append_columns, column_list, column_pairs, pair_views, prefix_text, prefixed_columns};
use crate::models::{pick, set_if};
use crate::validation::{texts, flag, chars_within, opt_chars_within, opt2_chars_within, note, text_within, opt_text_within, opt2_text_within};

verus! {

/// A mount as the panel stores it.
pub struct Mount {
    pub uuid: u128,
    pub name: String,
    pub description: Option<String>,
    pub source: String,
    pub target: String,
    pub read_only: bool,
    pub user_mountable: bool,
    /// Microseconds since the Unix epoch.
    pub created: i64,
}

/// The options that create a mount.
pub struct CreateMountOptions {
    pub name: String,
    pub description: Option<String>,
    pub source: String,
    pub target: String,
    pub read_only: bool,
    pub user_mountable: bool,
}

/// The options that update a mount; an absent field stays as it is, and
/// `Some(None)` clears the description.
pub struct UpdateMountOptions {
    pub name: Option<String>,
    pub description: Option<Option<String>>,
    pub source: Option<String>,
    pub target: Option<String>,
    pub read_only: Option<bool>,
    pub user_mountable: Option<bool>,
}

/// The fields of creation options that break their limits, in field order.
pub open spec fn spec_create_errors(o: CreateMountOptions) -> Seq<Seq<char>> {
    flag(!chars_within(o.name@, 1, 255), "name"@)
        + flag(!opt_chars_within(o.description, 1, 1024), "description"@)
        + flag(!chars_within(o.source@, 1, 255), "source"@)
        + flag(!chars_within(o.target@, 1, 255), "target"@)
}

/// The fields of update options that break their limits, in field order.
pub open spec fn spec_update_errors(o: UpdateMountOptions) -> Seq<Seq<char>> {
    flag(!opt_chars_within(o.name, 1, 255), "name"@)
        + flag(!opt2_chars_within(o.description, 1, 1024), "description"@)
        + flag(!opt_chars_within(o.source, 1, 255), "source"@)
        + flag(!opt_chars_within(o.target, 1, 255), "target"@)
}

impl CreateMountOptions {
    /// The fields that break their limits; empty when the options are valid.
    pub fn validate(&self) -> (errors: Vec<String>)
        ensures
            texts(errors@) == spec_create_errors(*self),
    {
        let mut errors: Vec<String> = Vec::new();
        note(&mut errors, text_within(self.name.as_str(), 1, 255), "name");
        note(&mut errors, opt_text_within(&self.description, 1, 1024), "description");
        note(&mut errors, text_within(self.source.as_str(), 1, 255), "source");
        note(&mut errors, text_within(self.target.as_str(), 1, 255), "target");
        assert(texts(errors@) =~= spec_create_errors(*self));
        errors
    }
}

impl UpdateMountOptions {
    /// The fields that break their limits; empty when the options are valid.
    pub fn validate(&self) -> (errors: Vec<String>)
        ensures
            texts(errors@) == spec_update_errors(*self),
    {
        let mut errors: Vec<String> = Vec::new();
        note(&mut errors, opt_text_within(&self.name, 1, 255), "name");
        note(&mut errors, opt2_text_within(&self.description, 1, 1024), "description");
        note(&mut errors, opt_text_within(&self.source, 1, 255), "source");
        note(&mut errors, opt_text_within(&self.target, 1, 255), "target");
        assert(texts(errors@) =~= spec_update_errors(*self));
        errors
    }
}

/// A mount as administrators see it.
pub struct AdminApiMount {
    pub uuid: u128,
    pub name: String,
    pub description: Option<String>,
    pub source: String,
    pub target: String,
    pub read_only: bool,
    pub user_mountable: bool,
    pub created: i64,
}

impl Mount {
    /// Applies an update: each field that the options set takes its new
    /// value, every other field keeps its own.
    pub fn apply_update(&mut self, options: UpdateMountOptions)
        ensures
            final(self).uuid == old(self).uuid,
            final(self).name == pick(options.name, old(self).name),
            final(self).description == pick(options.description, old(self).description),
            final(self).source == pick(options.source, old(self).source),
            final(self).target == pick(options.target, old(self).target),
            final(self).read_only == pick(options.read_only, old(self).read_only),
            final(self).user_mountable == pick(options.user_mountable, old(self).user_mountable),
            final(self).created == old(self).created,
    {
        set_if(&mut self.name, options.name);
        set_if(&mut self.description, options.description);
        set_if(&mut self.source, options.source);
        set_if(&mut self.target, options.target);
        set_if(&mut self.read_only, options.read_only);
        set_if(&mut self.user_mountable, options.user_mountable);
    }

    /// The mount as administrators see it.
    pub fn into_admin_api_object(self) -> (r: AdminApiMount)
        ensures
            r.uuid == self.uuid,
            r.name == self.name,
            r.description == self.description,
            r.source == self.source,
            r.target == self.target,
            r.read_only == self.read_only,
            r.user_mountable == self.user_mountable,
            r.created == self.created,
    {
        AdminApiMount {
            uuid: self.uuid,
            name: self.name,
            description: self.description,
            source: self.source,
            target: self.target,
            read_only: self.read_only,
            user_mountable: self.user_mountable,
            created: self.created,
        }
    }

    /// The mount as the daemon mounts it.
    pub fn into_wings_mount(self) -> (r: crate::wings::Mount)
        ensures
            r.source == self.source,
            r.target == self.target,
            r.read_only == self.read_only,
    {
        crate::wings::Mount { target: self.target, source: self.source, read_only: self.read_only }
    }
}

/// The columns of `mounts`, each with the name it is read back by.
pub open spec fn mount_column_list() -> Seq<(Seq<char>, Seq<char>)> {
    seq![
        ("uuid"@, "uuid"@),
        ("name"@, "name"@),
        ("description"@, "description"@),
        ("source"@, "source"@),
        ("target"@, "target"@),
        ("read_only"@, "read_only"@),
        ("user_mountable"@, "user_mountable"@),
        ("created"@, "created"@),
    ]
}

impl Mount {
    /// The columns a query selects for a mount, read back under `prefix`.
    pub fn columns(prefix: Option<&str>) -> (r: Vec<(String, String)>)
        ensures
            pair_views(r@) == column_pairs("mounts"@, mount_column_list(), prefix_text(prefix)),
    {
        let columns = vec![
            ("uuid", "uuid"),
            ("name", "name"),
            ("description", "description"),
            ("source", "source"),
            ("target", "target"),
            ("read_only", "read_only"),
            ("user_mountable", "user_mountable"),
            ("created", "created"),
        ];
        let r = prefixed_columns("mounts", columns.as_slice(), prefix);
        assert(column_list(columns@) =~= mount_column_list());
        r
    }
}

} // verus!
