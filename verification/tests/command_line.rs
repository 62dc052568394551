use calagopus_panel::commands::nests::{
    CreateArgs as NestCreateArgs, CreateCommand as NestCreateCommand, MassImportArgs, MassImportCommand,
    MassImportTally, NestLookup,
};
use calagopus_panel::commands::users::{
    CreateArgs as UserCreateArgs, CreateCommand as UserCreateCommand, Disable2FAArgs, Disable2FACommand,
    ResetPasswordArgs, ResetPasswordCommand,
};
use calagopus_panel::commands::{self, resolve_flag, resolve_text, user_lookup, user_lookup_from, CliCommandGroupBuilder, UserLookup};

fn names(b: &CliCommandGroupBuilder) -> Vec<(String, bool)> {
    b.entries.iter().map(|e| (e.name.clone(), e.is_group)).collect()
}

#[test]
fn command_tree() {
    let root = commands::commands(CliCommandGroupBuilder::new());
    assert_eq!(names(&root), vec![
        ("version".to_string(), false),
        ("service-install".to_string(), false),
        ("diagnostics".to_string(), false),
        ("users".to_string(), true),
        ("nests".to_string(), true),
        ("import".to_string(), true),
        ("extensions".to_string(), true),
        ("database-migrator".to_string(), true),
    ]);
    assert_eq!(root.entries[0].description, "Prints the current executable version and exits.");
    let nests = commands::nests::commands(CliCommandGroupBuilder::new());
    assert_eq!(names(&nests), vec![("create".to_string(), false), ("mass-import".to_string(), false)]);
    let ext = commands::extensions::commands(CliCommandGroupBuilder::new());
    assert_eq!(ext.entries.len(), 10);
    assert_eq!(ext.entries[4].name, "apply");
    assert_eq!(ext.entries[9].name, "update");
}

#[test]
fn argument_resolution() {
    assert_eq!(resolve_text(Some("x".to_string()), false, "name"), Ok(Some("x".to_string())));
    assert_eq!(resolve_text(None, true, "name"), Ok(None));
    assert_eq!(
        resolve_text(None, false, "name"),
        Err("name arg is required when not running in an interactive terminal".to_string())
    );
    assert_eq!(resolve_flag(Some(true), false), Some(true));
    assert_eq!(resolve_flag(None, true), None);
    assert_eq!(resolve_flag(None, false), Some(false));
}

#[test]
fn user_lookups() {
    assert!(matches!(user_lookup("00000000-0000-0000-0000-000000000005".to_string()), UserLookup::ByUuid(5)));
    assert!(matches!(user_lookup("a@b.c".to_string()), UserLookup::ByEmail(ref s) if s == "a@b.c"));
    assert!(matches!(user_lookup("alice".to_string()), UserLookup::ByUsername(ref s) if s == "alice"));
    assert!(matches!(user_lookup_from(Some(7), "a@b".to_string()), UserLookup::ByUuid(7)));
    assert!(matches!(user_lookup_from(None, "a@b".to_string()), UserLookup::ByEmail(_)));
    assert!(matches!(user_lookup_from(None, "ab".to_string()), UserLookup::ByUsername(_)));
}

#[test]
fn create_user_arguments() {
    let args = UserCreateArgs {
        json: false,
        username: Some("alice".to_string()),
        email: None,
        name_first: None,
        name_last: None,
        password: None,
        admin: None,
    };
    let r = UserCreateCommand::resolve(args, false);
    assert!(matches!(r, Err(ref m) if m == "email arg is required when not running in an interactive terminal"));
    let args = UserCreateArgs {
        json: true,
        username: Some("alice".to_string()),
        email: Some("a@b.c".to_string()),
        name_first: Some("Alice".to_string()),
        name_last: Some("Liddell".to_string()),
        password: Some("hunter22".to_string()),
        admin: None,
    };
    let inputs = UserCreateCommand::resolve(args, false).ok().unwrap();
    assert_eq!(inputs.username, Some("alice".to_string()));
    assert_eq!(inputs.admin, Some(false));
    let interactive = UserCreateArgs {
        json: false,
        username: None,
        email: None,
        name_first: None,
        name_last: None,
        password: None,
        admin: None,
    };
    let asked = UserCreateCommand::resolve(interactive, true).ok().unwrap();
    assert_eq!(asked.username, None);
    assert_eq!(asked.admin, None);
}

#[test]
fn second_factor_and_passwords() {
    assert_eq!(Disable2FACommand::check(true), Ok(()));
    assert_eq!(
        Disable2FACommand::check(false),
        Err("two-factor authentication is not enabled for this user".to_string())
    );
    assert_eq!(Disable2FACommand::resolve(&Disable2FAArgs { user: Some("bob".to_string()) }, false), Ok(Some("bob".to_string())));
    let args = ResetPasswordArgs { user: Some("bob".to_string()), password: None };
    assert_eq!(ResetPasswordCommand::resolve_user(&args, false), Ok(Some("bob".to_string())));
    assert_eq!(
        ResetPasswordCommand::resolve_password(&args, false),
        Err("password arg is required when not running in an interactive terminal".to_string())
    );
}

#[test]
fn nest_commands() {
    let args = NestCreateArgs { json: false, author: None, name: Some("Games".to_string()) };
    assert_eq!(
        NestCreateCommand::resolve(&args, false),
        Err("author arg is required when not running in an interactive terminal".to_string())
    );
    assert_eq!(NestCreateCommand::resolve(&args, true), Ok((None, Some("Games".to_string()))));
    let m = MassImportArgs::with_defaults("/eggs".to_string());
    assert!(m.nest.is_none() && !m.recursive && m.update && !m.ignore_errors);
    assert_eq!(
        MassImportCommand::resolve_nest(&m, false),
        Err("nest arg is required when not running in an interactive terminal".to_string())
    );
    assert!(matches!(MassImportCommand::nest_lookup("Minecraft".to_string()), NestLookup::ByName(ref s) if s == "Minecraft"));
    assert!(matches!(
        MassImportCommand::nest_lookup("00000000-0000-0000-0000-000000000009".to_string()),
        NestLookup::ByUuid(9)
    ));
    assert!(MassImportCommand::updates_on_failure(true, true));
    assert!(!MassImportCommand::updates_on_failure(true, false));
    assert!(!MassImportCommand::updates_on_failure(false, true));
    assert_eq!(MassImportCommand::conflict_target(Some(1), Some(2)), Ok(1));
    assert_eq!(MassImportCommand::conflict_target(None, Some(2)), Ok(2));
    assert!(MassImportCommand::conflict_target(None, None).is_err());
}

#[test]
fn mass_import_tally() {
    let mut t = MassImportTally::new();
    assert!(!t.any_imported());
    assert!(t.record(true, false));
    assert!(!t.record(false, false));
    assert!(t.record(false, true));
    assert_eq!(t.imported, 1);
    assert!(t.any_imported());
    t.imported = u64::MAX;
    t.record(true, false);
    assert_eq!(t.imported, u64::MAX);
}

#[test]
fn mass_import_needs_an_existing_nest() {
    assert_eq!(MassImportCommand::found_nest(Some(5)), Ok(5));
    let refused = MassImportCommand::found_nest(None).unwrap_err();
    assert_eq!(refused.exit_code, 1);
    assert_eq!(refused.message, "nest not found");
}

#[test]
fn users_create_without_a_terminal() {
    let args = UserCreateArgs {
        json: false,
        username: Some("alice".to_string()),
        email: Some("a@b.c".to_string()),
        name_first: Some("Alice".to_string()),
        name_last: Some("Liddell".to_string()),
        password: Some("hunter22".to_string()),
        admin: None,
    };
    let o = UserCreateCommand::non_interactive_options(args, "en".to_string()).ok().unwrap();
    assert_eq!(o.role_uuid, None);
    assert_eq!(o.external_id, None);
    assert_eq!(o.username, "alice");
    assert_eq!(o.email, "a@b.c");
    assert_eq!(o.name_first, "Alice");
    assert_eq!(o.name_last, "Liddell");
    assert_eq!(o.password, Some("hunter22".to_string()));
    assert!(!o.admin);
    assert_eq!(o.language, "en");
    let admin = UserCreateArgs {
        json: false,
        username: Some("root".to_string()),
        email: Some("r@b.c".to_string()),
        name_first: Some("R".to_string()),
        name_last: Some("T".to_string()),
        password: Some("secret12".to_string()),
        admin: Some(true),
    };
    assert!(UserCreateCommand::non_interactive_options(admin, "de".to_string()).ok().unwrap().admin);
    let missing = UserCreateArgs {
        json: false,
        username: Some("alice".to_string()),
        email: Some("a@b.c".to_string()),
        name_first: None,
        name_last: Some("Liddell".to_string()),
        password: Some("hunter22".to_string()),
        admin: None,
    };
    let refused = UserCreateCommand::non_interactive_options(missing, "en".to_string()).err().unwrap();
    assert_eq!(refused.exit_code, 1);
    assert_eq!(refused.message, "name-first arg is required when not running in an interactive terminal");
}
