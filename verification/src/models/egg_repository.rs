//! Egg repositories: git repositories of exported eggs that the panel
//! keeps a copy of.

use vstd::prelude::*;
use crate::models::{append_columns, column_list, column_pairs, pair_views, prefix_text, prefixed_columns};
use crate::models::{pick, set_if};
use crate::urls::{is_url, url_normalized};
use crate::validation::{texts, flag, bytes_within, chars_within, opt_chars_within, note, text_within, opt_text_within, bytes_at_most};

verus! {

/// An egg repository as the panel stores it.
pub struct EggRepository {
    pub uuid: u128,
    pub name: String,
    pub description: Option<String>,
    pub git_repository: String,
    /// When it was last synced, in microseconds since the Unix epoch.
    pub last_synced: Option<i64>,
    /// Microseconds since the Unix epoch.
    pub created: i64,
}

/// The options that create a repository.
pub struct CreateEggRepositoryOptions {
    pub name: String,
    pub description: Option<String>,
    pub git_repository: String,
}

/// The options that update a repository; an absent field stays as it is,
/// and `Some(None)` clears the description.
pub struct UpdateEggRepositoryOptions {
    pub name: Option<String>,
    pub description: Option<Option<String>>,
    pub git_repository: Option<String>,
}

/// The fields of creation options that break their limits, in field order;
/// the description is held to 1024 bytes and the repository must be a URL.
pub open spec fn spec_create_errors(o: CreateEggRepositoryOptions) -> Seq<Seq<char>> {
    flag(!chars_within(o.name@, 1, 255), "name"@)
        + flag(!(match o.description {
            Some(d) => bytes_within(d@, 1024),
            None => true,
        }), "description"@)
        + flag(!(url_normalized(o.git_repository@) is Some), "git_repository"@)
}

/// The fields of update options that break their limits, in field order.
pub open spec fn spec_update_errors(o: UpdateEggRepositoryOptions) -> Seq<Seq<char>> {
    flag(!opt_chars_within(o.name, 1, 255), "name"@)
        + flag(!(match o.description {
            Some(Some(d)) => bytes_within(d@, 1024),
            _ => true,
        }), "description"@)
        + flag(!(match o.git_repository {
            Some(g) => url_normalized(g@) is Some,
            None => true,
        }), "git_repository"@)
}

impl CreateEggRepositoryOptions {
    /// The fields that break their limits; empty when the options are valid.
    pub fn validate(&self) -> (errors: Vec<String>)
        ensures
            texts(errors@) == spec_create_errors(*self),
    {
        let mut errors: Vec<String> = Vec::new();
        note(&mut errors, text_within(self.name.as_str(), 1, 255), "name");
        let description_ok = match &self.description {
            Some(d) => bytes_at_most(d.as_str(), 1024),
            None => true,
        };
        note(&mut errors, description_ok, "description");
        note(&mut errors, is_url(self.git_repository.as_str()), "git_repository");
        assert(texts(errors@) =~= spec_create_errors(*self));
        errors
    }
}

impl UpdateEggRepositoryOptions {
    /// The fields that break their limits; empty when the options are valid.
    pub fn validate(&self) -> (errors: Vec<String>)
        ensures
            texts(errors@) == spec_update_errors(*self),
    {
        let mut errors: Vec<String> = Vec::new();
        note(&mut errors, opt_text_within(&self.name, 1, 255), "name");
        let description_ok = match &self.description {
            Some(Some(d)) => bytes_at_most(d.as_str(), 1024),
            _ => true,
        };
        note(&mut errors, description_ok, "description");
        let repository_ok = match &self.git_repository {
            Some(g) => is_url(g.as_str()),
            None => true,
        };
        note(&mut errors, repository_ok, "git_repository");
        assert(texts(errors@) =~= spec_update_errors(*self));
        errors
    }
}

/// A repository as administrators see it.
pub struct AdminApiEggRepository {
    pub uuid: u128,
    pub name: String,
    pub description: Option<String>,
    pub git_repository: String,
    pub last_synced: Option<i64>,
    pub created: i64,
}

impl EggRepository {
    /// Applies an update: each field that the options set takes its new
    /// value, every other field keeps its own.
    pub fn apply_update(&mut self, options: UpdateEggRepositoryOptions)
        ensures
            final(self).uuid == old(self).uuid,
            final(self).name == pick(options.name, old(self).name),
            final(self).description == pick(options.description, old(self).description),
            final(self).git_repository == pick(options.git_repository, old(self).git_repository),
            final(self).last_synced == old(self).last_synced,
            final(self).created == old(self).created,
    {
        set_if(&mut self.name, options.name);
        set_if(&mut self.description, options.description);
        set_if(&mut self.git_repository, options.git_repository);
    }

    /// The repository as administrators see it.
    pub fn into_admin_api_object(self) -> (r: AdminApiEggRepository)
        ensures
            r.uuid == self.uuid,
            r.name == self.name,
            r.description == self.description,
            r.git_repository == self.git_repository,
            r.last_synced == self.last_synced,
            r.created == self.created,
    {
        AdminApiEggRepository {
            uuid: self.uuid,
            name: self.name,
            description: self.description,
            git_repository: self.git_repository,
            last_synced: self.last_synced,
            created: self.created,
        }
    }
}

/// The columns of `egg_repositories`, each with the name it is read back by.
pub open spec fn egg_repository_column_list() -> Seq<(Seq<char>, Seq<char>)> {
    seq![
        ("uuid"@, "uuid"@),
        ("name"@, "name"@),
        ("description"@, "description"@),
        ("git_repository"@, "git_repository"@),
        ("last_synced"@, "last_synced"@),
        ("created"@, "created"@),
    ]
}

impl EggRepository {
    /// The columns a query selects for a egg repository, read back under `prefix`.
    pub fn columns(prefix: Option<&str>) -> (r: Vec<(String, String)>)
        ensures
            pair_views(r@) == column_pairs("egg_repositories"@, egg_repository_column_list(), prefix_text(prefix)),
    {
        let columns = vec![
            ("uuid", "uuid"),
            ("name", "name"),
            ("description", "description"),
            ("git_repository", "git_repository"),
            ("last_synced", "last_synced"),
            ("created", "created"),
        ];
        let r = prefixed_columns("egg_repositories", columns.as_slice(), prefix);
        assert(column_list(columns@) =~= egg_repository_column_list());
        r
    }
}

} // verus!
