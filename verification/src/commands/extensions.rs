//! The `extensions` command group.

use vstd::prelude::*;
use crate::commands::{CliCommandGroupBuilder, entries_view};

verus! {

/// The commands of the `extensions` group.
pub open spec fn extension_entries() -> Seq<(Seq<char>, Seq<char>, bool)> {
    seq![
        ("list"@, "Lists the currently installed and pending extensions for the Panel."@, false),
        ("inspect"@, "Inspects a .c7s.zip extension file for the Panel."@, false),
        ("init"@, "Initializes a new extension using a template."@, false),
        ("export"@, "Exports an extension using its identifier."@, false),
        ("apply"@, "Applies (builds) all extensions and panel sourcecode to the current bin location."@, false),
        ("resync"@, "Resyncs the internal extension list used for building the Panel."@, false),
        ("add"@, "Adds an extension using a calagopus extension archive."@, false),
        ("remove"@, "Removes an extension using its identifier."@, false),
        ("clear"@, "Removes all extensions."@, false),
        ("update"@, "Updates an extension using its identifier."@, false),
    ]
}

/// Adds the commands of the `extensions` group.
pub fn commands(cli: CliCommandGroupBuilder) -> (r: CliCommandGroupBuilder)
    ensures
        entries_view(r) == entries_view(cli) + extension_entries(),
{
    let r = cli.add_command("list", "Lists the currently installed and pending extensions for the Panel.")
        .add_command("inspect", "Inspects a .c7s.zip extension file for the Panel.")
        .add_command("init", "Initializes a new extension using a template.")
        .add_command("export", "Exports an extension using its identifier.")
        .add_command("apply", "Applies (builds) all extensions and panel sourcecode to the current bin location.")
        .add_command("resync", "Resyncs the internal extension list used for building the Panel.")
        .add_command("add", "Adds an extension using a calagopus extension archive.")
        .add_command("remove", "Removes an extension using its identifier.")
        .add_command("clear", "Removes all extensions.")
        .add_command("update", "Updates an extension using its identifier.");
    assert(entries_view(r) =~= entries_view(cli) + extension_entries());
    r
}

} // verus!
