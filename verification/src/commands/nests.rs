//! The `nests` command group: creating a nest, and importing a folder of
//! eggs into one.

use vstd::prelude::*;
use crate::commands::{CommandRefusal, CliCommandGroupBuilder, entries_view, resolve_text, resolution_view, spec_resolve_text, opt_view};
use crate::ids::{uuid_from_text, uuid_parsed};

verus! {

/// The commands of the `nests` group.
pub open spec fn nest_entries() -> Seq<(Seq<char>, Seq<char>, bool)> {
    seq![
        ("create"@, "Creates a new nest for the Panel."@, false),
        ("mass-import"@, "Mass-imports a folder of eggs into a nest."@, false),
    ]
}

/// Adds the commands of the `nests` group.
pub fn commands(cli: CliCommandGroupBuilder) -> (r: CliCommandGroupBuilder)
    ensures
        entries_view(r) == entries_view(cli) + nest_entries(),
{
    let r = cli.add_command("create", "Creates a new nest for the Panel.")
        .add_command("mass-import", "Mass-imports a folder of eggs into a nest.");
    assert(entries_view(r) =~= entries_view(cli) + nest_entries());
    r
}

/// The arguments of `nests create`.
pub struct CreateArgs {
    pub json: bool,
    pub author: Option<String>,
    pub name: Option<String>,
}

/// `nests create`.
pub struct CreateCommand;

impl CreateCommand {
    /// Resolves the author, then the name: each given value, or `None`
    /// where the user is to be asked; the first refusal stops.
    pub fn resolve(args: &CreateArgs, interactive: bool) -> (r: Result<(Option<String>, Option<String>), String>)
        ensures
            match (spec_resolve_text(opt_view(args.author), interactive, "author"@), spec_resolve_text(
                opt_view(args.name),
                interactive,
                "name"@,
            )) {
                (Err(m), _) => r matches Err(e) && e@ == m,
                (Ok(_), Err(m)) => r matches Err(e) && e@ == m,
                (Ok(a), Ok(n)) => r matches Ok((ra, rn)) && opt_view(ra) == a && opt_view(rn) == n,
            },
    {
        let author = match resolve_text(args.author.clone(), interactive, "author") {
            Ok(a) => a,
            Err(m) => return Err(m),
        };
        let name = match resolve_text(args.name.clone(), interactive, "name") {
            Ok(n) => n,
            Err(m) => return Err(m),
        };
        Ok((author, name))
    }
}

/// The arguments of `nests mass-import`.
pub struct MassImportArgs {
    pub nest: Option<String>,
    pub recursive: bool,
    pub update: bool,
    pub ignore_errors: bool,
    pub path: String,
}

impl MassImportArgs {
    /// The arguments with their defaults: no nest, not recursive, updating
    /// conflicting eggs, stopping at the first error.
    pub fn with_defaults(path: String) -> (r: Self)
        ensures
            r.nest is None,
            !r.recursive,
            r.update,
            !r.ignore_errors,
            r.path == path,
    {
        MassImportArgs { nest: None, recursive: false, update: true, ignore_errors: false, path }
    }
}

/// How the nest to import into is looked up.
pub enum NestLookup {
    ByUuid(u128),
    ByName(String),
}

/// The message with which an import whose conflicting egg cannot be found
/// fails.
pub open spec fn conflict_not_found_message() -> Seq<char> {
    "unable to find nest egg for conflicting import by uuid or name, perhaps it already exists in a different nest"@
}

/// `nests mass-import`.
pub struct MassImportCommand;

impl MassImportCommand {
    /// Resolves the nest argument; where it is missing and no terminal can
    /// be asked, the command prints the refusal and exits with status 1.
    pub fn resolve_nest(args: &MassImportArgs, interactive: bool) -> (r: Result<Option<String>, String>)
        ensures
            resolution_view(r) == spec_resolve_text(opt_view(args.nest), interactive, "nest"@),
    {
        resolve_text(args.nest.clone(), interactive, "nest")
    }

    /// The nest is looked up by UUID where its text reads as one, else by
    /// name.
    pub fn nest_lookup(text: String) -> (r: NestLookup)
        ensures
            match r {
                NestLookup::ByUuid(u) => uuid_parsed(text@) == Some(u),
                NestLookup::ByName(s) => uuid_parsed(text@) is None && s@ == text@,
            },
    {
        match uuid_from_text(text.as_str()) {
            Some(u) => NestLookup::ByUuid(u),
            None => NestLookup::ByName(text),
        }
    }

    /// The nest to import into, once looked up: `found` is the nest that the
    /// nest argument names, if any. Where there is none the command prints
    /// "nest not found" and exits with status 1, importing nothing.
    pub fn found_nest(found: Option<u128>) -> (r: Result<u128, CommandRefusal>)
        ensures
            match found {
                Some(u) => r == Ok::<u128, CommandRefusal>(u),
                None => r matches Err(e) && e.exit_code == 1 && e.message@ == "nest not found"@,
            },
    {
        match found {
            Some(u) => Ok(u),
            None => Err(CommandRefusal { exit_code: 1, message: "nest not found".to_owned() }),
        }
    }

    /// Whether a failed import updates the egg it conflicts with: only a
    /// conflict on a unique key does, and only where updating is on.
    pub fn updates_on_failure(unique_violation: bool, update: bool) -> (r: bool)
        ensures
            r == (unique_violation && update),
    {
        unique_violation && update
    }

    /// The egg that a conflicting import updates: the one of the nest with
    /// the same UUID, else the one with the same name.
    pub fn conflict_target(by_uuid: Option<u128>, by_name: Option<u128>) -> (r: Result<u128, String>)
        ensures
            match by_uuid {
                Some(u) => r == Ok::<u128, String>(u),
                None => match by_name {
                    Some(u) => r == Ok::<u128, String>(u),
                    None => r matches Err(m) && m@ == conflict_not_found_message(),
                },
            },
    {
        match by_uuid {
            Some(u) => Ok(u),
            None => match by_name {
                Some(u) => Ok(u),
                None => Err(
                    "unable to find nest egg for conflicting import by uuid or name, perhaps it already exists in a different nest".to_owned(),
                ),
            },
        }
    }
}

/// The count of handled entries of a mass import.
pub struct MassImportTally {
    pub imported: u64,
}

impl MassImportTally {
    /// Nothing handled yet.
    pub fn new() -> (r: Self)
        ensures
            r.imported == 0,
    {
        MassImportTally { imported: 0 }
    }

    /// Records the outcome of one entry: a success counts; a failure stops
    /// the import unless errors are ignored. Returns whether to go on.
    pub fn record(&mut self, succeeded: bool, ignore_errors: bool) -> (go_on: bool)
        ensures
            succeeded ==> final(self).imported == if old(self).imported < u64::MAX {
                old(self).imported + 1
            } else {
                old(self).imported as int
            },
            !succeeded ==> final(self).imported == old(self).imported,
            go_on == (succeeded || ignore_errors),
    {
        if succeeded {
            self.imported = self.imported.saturating_add(1);
            true
        } else {
            ignore_errors
        }
    }

    /// Whether anything was imported; the final message tells the user
    /// either the count or how to find eggs.
    pub fn any_imported(&self) -> (r: bool)
        ensures
            r == (self.imported > 0),
    {
        self.imported > 0
    }
}

} // verus!
