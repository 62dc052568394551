//! The command line: the commands and groups that the panel's binary
//! offers, and the decisions its commands take on their arguments.

use vstd::prelude::*;
use crate::ids::{uuid_from_text, uuid_parsed};
use crate::text::{chars_of, contains_char, has_char};

pub mod extensions;
pub mod nests;
pub mod users;

verus! {

/// One entry of a command group: a command, or a group of commands.
pub struct CliEntry {
    pub name: String,
    pub description: String,
    pub is_group: bool,
}

/// The entries of a command group, in the order they were added.
pub struct CliCommandGroupBuilder {
    pub entries: Vec<CliEntry>,
}

/// An entry as the name, the description and whether it is a group.
pub open spec fn entry_view(e: CliEntry) -> (Seq<char>, Seq<char>, bool) {
    (e.name@, e.description@, e.is_group)
}

/// The entries of a builder, each as its view.
pub open spec fn entries_view(b: CliCommandGroupBuilder) -> Seq<(Seq<char>, Seq<char>, bool)> {
    b.entries@.map_values(|e: CliEntry| entry_view(e))
}

impl CliCommandGroupBuilder {
    /// An empty group.
    pub fn new() -> (r: Self)
        ensures
            entries_view(r) == Seq::<(Seq<char>, Seq<char>, bool)>::empty(),
    {
        let r = CliCommandGroupBuilder { entries: Vec::new() };
        assert(entries_view(r) =~= Seq::<(Seq<char>, Seq<char>, bool)>::empty());
        r
    }

    fn add(self, name: &str, description: &str, is_group: bool) -> (r: Self)
        ensures
            entries_view(r) == entries_view(self).push((name@, description@, is_group)),
    {
        let mut entries = self.entries;
        let ghost before = entries@;
        entries.push(CliEntry { name: name.to_owned(), description: description.to_owned(), is_group });
        let r = CliCommandGroupBuilder { entries };
        assert(entries_view(r) =~= entries_view(self).push((name@, description@, is_group)));
        r
    }

    /// Adds the command `name`.
    pub fn add_command(self, name: &str, description: &str) -> (r: Self)
        ensures
            entries_view(r) == entries_view(self).push((name@, description@, false)),
    {
        self.add(name, description, false)
    }

    /// Adds the group `name`.
    pub fn add_group(self, name: &str, description: &str) -> (r: Self)
        ensures
            entries_view(r) == entries_view(self).push((name@, description@, true)),
    {
        self.add(name, description, true)
    }
}

/// The entries that the binary's top level adds.
pub open spec fn root_entries() -> Seq<(Seq<char>, Seq<char>, bool)> {
    seq![
        ("version"@, "Prints the current executable version and exits."@, false),
        ("service-install"@, "Installs the Panel service on the system."@, false),
        ("diagnostics"@, "Gets Diagnostic Data for the Panel."@, false),
        ("users"@, "Manage users within the Panel."@, true),
        ("nests"@, "Manage nests within the Panel."@, true),
        ("import"@, "Import data from other panel software into Calagopus."@, true),
        ("extensions"@, "Manage Extensions for the Panel."@, true),
        ("database-migrator"@, "Manage Database Migrations."@, true),
    ]
}

/// Adds the binary's top-level commands and groups.
pub fn commands(cli: CliCommandGroupBuilder) -> (r: CliCommandGroupBuilder)
    ensures
        entries_view(r) == entries_view(cli) + root_entries(),
{
    let r = cli.add_command("version", "Prints the current executable version and exits.")
        .add_command("service-install", "Installs the Panel service on the system.")
        .add_command("diagnostics", "Gets Diagnostic Data for the Panel.")
        .add_group("users", "Manage users within the Panel.")
        .add_group("nests", "Manage nests within the Panel.")
        .add_group("import", "Import data from other panel software into Calagopus.")
        .add_group("extensions", "Manage Extensions for the Panel.")
        .add_group("database-migrator", "Manage Database Migrations.");
    assert(entries_view(r) =~= entries_view(cli) + root_entries());
    r
}

/// The message for an argument that is missing where no one can be asked.
pub open spec fn missing_arg_message(arg: Seq<char>) -> Seq<char> {
    arg + " arg is required when not running in an interactive terminal"@
}

/// What becomes of a text argument: the value given, a prompt (`None`), or,
/// where it is missing and no terminal can be asked, the refusal.
pub open spec fn spec_resolve_text(provided: Option<Seq<char>>, interactive: bool, arg: Seq<char>) -> Result<
    Option<Seq<char>>,
    Seq<char>,
> {
    match provided {
        Some(v) => Ok(Some(v)),
        None => if interactive {
            Ok(None)
        } else {
            Err(missing_arg_message(arg))
        },
    }
}

/// The view of an optional text.
pub open spec fn opt_view(o: Option<String>) -> Option<Seq<char>> {
    match o {
        Some(s) => Some(s@),
        None => None,
    }
}

/// The view of a result of a resolution.
pub open spec fn resolution_view(r: Result<Option<String>, String>) -> Result<Option<Seq<char>>, Seq<char>> {
    match r {
        Ok(o) => Ok(opt_view(o)),
        Err(m) => Err(m@),
    }
}

/// Resolves a text argument named `arg`: `Ok(Some(v))` for a given value,
/// `Ok(None)` where the user is to be asked, `Err` with the message where
/// the argument is missing and stdout is no terminal.
pub fn resolve_text(provided: Option<String>, interactive: bool, arg: &str) -> (r: Result<Option<String>, String>)
    ensures
        resolution_view(r) == spec_resolve_text(opt_view(provided), interactive, arg@),
{
    match provided {
        Some(v) => Ok(Some(v)),
        None => if interactive {
            Ok(None)
        } else {
            let mut m = arg.to_owned();
            crate::text::push_str(&mut m, " arg is required when not running in an interactive terminal");
            Err(m)
        },
    }
}

/// What becomes of a yes/no argument: the value given, a prompt (`None`),
/// or `false` where no terminal can be asked.
pub open spec fn spec_resolve_flag(provided: Option<bool>, interactive: bool) -> Option<bool> {
    match provided {
        Some(v) => Some(v),
        None => if interactive {
            None
        } else {
            Some(false)
        },
    }
}

/// Resolves a yes/no argument: the value given, `None` where the user is
/// to be asked, else `false`.
pub fn resolve_flag(provided: Option<bool>, interactive: bool) -> (r: Option<bool>)
    ensures
        r == spec_resolve_flag(provided, interactive),
{
    match provided {
        Some(v) => Some(v),
        None => if interactive {
            None
        } else {
            Some(false)
        },
    }
}

/// A command that ends early: the status it exits with and the message it
/// prints.
#[derive(Debug, PartialEq, Eq)]
pub struct CommandRefusal {
    pub exit_code: i32,
    pub message: String,
}

/// How a user given on the command line is looked up.
pub enum UserLookup {
    ByUuid(u128),
    ByEmail(String),
    ByUsername(String),
}

/// How to look up the user that `text` names, given what the UUID parser
/// made of it (`parsed`): by UUID where it read one, else by e-mail address
/// where the text holds an `@`, else by username.
pub fn user_lookup_from(parsed: Option<u128>, text: String) -> (r: UserLookup)
    ensures
        match r {
            UserLookup::ByUuid(u) => parsed == Some(u),
            UserLookup::ByEmail(s) => parsed is None && has_char(text@, '@') && s@ == text@,
            UserLookup::ByUsername(s) => parsed is None && !has_char(text@, '@') && s@ == text@,
        },
{
    match parsed {
        Some(u) => UserLookup::ByUuid(u),
        None => {
            let cs = chars_of(text.as_str());
            if contains_char(cs.as_slice(), '@') {
                UserLookup::ByEmail(text)
            } else {
                UserLookup::ByUsername(text)
            }
        },
    }
}

/// Decides how to look up the user that `text` names: by UUID where the
/// text reads as one, else by e-mail address where it holds an `@`, else
/// by username.
pub fn user_lookup(text: String) -> (r: UserLookup)
    ensures
        match r {
            UserLookup::ByUuid(u) => uuid_parsed(text@) == Some(u),
            UserLookup::ByEmail(s) => uuid_parsed(text@) is None && has_char(text@, '@') && s@ == text@,
            UserLookup::ByUsername(s) => uuid_parsed(text@) is None && !has_char(text@, '@') && s@
                == text@,
        },
{
    let parsed = uuid_from_text(text.as_str());
    user_lookup_from(parsed, text)
}

} // verus!
