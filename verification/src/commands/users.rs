//! The `users` commands that create a user, turn off a user's second
//! factor, and reset a password.

use vstd::prelude::*;
use crate::commands::{CommandRefusal, missing_arg_message, resolve_text, resolve_flag, spec_resolve_text, spec_resolve_flag, opt_view};

verus! {

/// The arguments of `users create`.
pub struct CreateArgs {
    pub json: bool,
    pub username: Option<String>,
    pub email: Option<String>,
    pub name_first: Option<String>,
    pub name_last: Option<String>,
    pub password: Option<String>,
    pub admin: Option<bool>,
}

/// The resolved arguments of `users create`: each given value, or `None`
/// where the user is to be asked.
pub struct CreateUserInputs {
    pub username: Option<String>,
    pub email: Option<String>,
    pub name_first: Option<String>,
    pub name_last: Option<String>,
    pub password: Option<String>,
    pub admin: Option<bool>,
}

/// The refusal of the first of the texts that cannot be resolved, in the
/// order the command asks for them: none where a terminal can be asked.
pub open spec fn create_refusal(args: CreateArgs, interactive: bool) -> Option<Seq<char>> {
    if interactive {
        None
    } else if args.username is None {
        Some(missing_arg_message("username"@))
    } else if args.email is None {
        Some(missing_arg_message("email"@))
    } else if args.name_first is None {
        Some(missing_arg_message("name-first"@))
    } else if args.name_last is None {
        Some(missing_arg_message("name-last"@))
    } else if args.password is None {
        Some(missing_arg_message("password"@))
    } else {
        None
    }
}

/// `users create`.
pub struct CreateCommand;

impl CreateCommand {
    /// Resolves the username, e-mail address, first and last name and
    /// password in that order, stopping at the first that is missing where
    /// no terminal can be asked; the admin flag falls back to `false`.
    pub fn resolve(args: CreateArgs, interactive: bool) -> (r: Result<CreateUserInputs, String>)
        ensures
            match create_refusal(args, interactive) {
                Some(m) => r matches Err(e) && e@ == m,
                None => r matches Ok(inputs) && {
                    &&& opt_view(inputs.username) == opt_view(args.username)
                    &&& opt_view(inputs.email) == opt_view(args.email)
                    &&& opt_view(inputs.name_first) == opt_view(args.name_first)
                    &&& opt_view(inputs.name_last) == opt_view(args.name_last)
                    &&& opt_view(inputs.password) == opt_view(args.password)
                    &&& inputs.admin == spec_resolve_flag(args.admin, interactive)
                },
            },
    {
        let ghost a = args;
        let CreateArgs { json: _, username, email, name_first, name_last, password, admin } = args;
        let username = match resolve_text(username, interactive, "username") {
            Ok(v) => v,
            Err(m) => return Err(m),
        };
        let email = match resolve_text(email, interactive, "email") {
            Ok(v) => v,
            Err(m) => return Err(m),
        };
        let name_first = match resolve_text(name_first, interactive, "name-first") {
            Ok(v) => v,
            Err(m) => return Err(m),
        };
        let name_last = match resolve_text(name_last, interactive, "name-last") {
            Ok(v) => v,
            Err(m) => return Err(m),
        };
        let password = match resolve_text(password, interactive, "password") {
            Ok(v) => v,
            Err(m) => return Err(m),
        };
        let admin = resolve_flag(admin, interactive);
        Ok(CreateUserInputs { username, email, name_first, name_last, password, admin })
    }
}

/// What creating a user takes.
pub struct CreateUserOptions {
    pub role_uuid: Option<u128>,
    pub external_id: Option<String>,
    pub username: String,
    pub email: String,
    pub name_first: String,
    pub name_last: String,
    pub password: Option<String>,
    pub admin: bool,
    pub language: String,
}

impl CreateCommand {
    /// The user that `users create` makes where no terminal can be asked,
    /// with `language` the panel's default language: the arguments as
    /// given, no role and no external identifier, and not an
    /// administrator unless the arguments say so. Where an argument is
    /// missing the command prints the refusal and exits with status 1.
    pub fn non_interactive_options(args: CreateArgs, language: String) -> (r: Result<CreateUserOptions, CommandRefusal>)
        ensures
            match create_refusal(args, false) {
                Some(m) => r matches Err(e) && e.exit_code == 1 && e.message@ == m,
                None => r matches Ok(o) && {
                    &&& o.role_uuid is None
                    &&& o.external_id is None
                    &&& Some(o.username@) == opt_view(args.username)
                    &&& Some(o.email@) == opt_view(args.email)
                    &&& Some(o.name_first@) == opt_view(args.name_first)
                    &&& Some(o.name_last@) == opt_view(args.name_last)
                    &&& opt_view(o.password) == opt_view(args.password)
                    &&& o.admin == (args.admin == Some(true))
                    &&& o.language@ == language@
                },
            },
    {
        match Self::resolve(args, false) {
            Err(m) => Err(CommandRefusal { exit_code: 1, message: m }),
            Ok(inputs) => {
                let CreateUserInputs { username, email, name_first, name_last, password, admin } = inputs;
                match (username, email, name_first, name_last) {
                    (Some(username), Some(email), Some(name_first), Some(name_last)) => Ok(
                        CreateUserOptions {
                            role_uuid: None,
                            external_id: None,
                            username,
                            email,
                            name_first,
                            name_last,
                            password,
                            admin: match admin {
                                Some(a) => a,
                                None => false,
                            },
                            language,
                        },
                    ),
                    // Never taken: without a terminal, resolving gives every text.
                    _ => Err(CommandRefusal { exit_code: 1, message: String::new() }),
                }
            },
        }
    }
}

/// The arguments of `users disable-2fa`.
pub struct Disable2FAArgs {
    pub user: Option<String>,
}

/// The message for a user whose second factor is not on.
pub open spec fn not_enabled_message() -> Seq<char> {
    "two-factor authentication is not enabled for this user"@
}

/// `users disable-2fa`.
pub struct Disable2FACommand;

impl Disable2FACommand {
    /// Resolves the user argument.
    pub fn resolve(args: &Disable2FAArgs, interactive: bool) -> (r: Result<Option<String>, String>)
        ensures
            crate::commands::resolution_view(r) == spec_resolve_text(opt_view(args.user), interactive, "user"@),
    {
        resolve_text(args.user.clone(), interactive, "user")
    }

    /// A second factor can only be turned off where it is on.
    pub fn check(totp_enabled: bool) -> (r: Result<(), String>)
        ensures
            totp_enabled <==> r is Ok,
            r matches Err(m) ==> m@ == not_enabled_message(),
    {
        if !totp_enabled {
            return Err("two-factor authentication is not enabled for this user".to_owned());
        }
        Ok(())
    }
}

/// The arguments of `users reset-password`.
pub struct ResetPasswordArgs {
    pub user: Option<String>,
    pub password: Option<String>,
}

/// `users reset-password`.
pub struct ResetPasswordCommand;

impl ResetPasswordCommand {
    /// Resolves the user argument; the password is resolved once the user
    /// is found.
    pub fn resolve_user(args: &ResetPasswordArgs, interactive: bool) -> (r: Result<Option<String>, String>)
        ensures
            crate::commands::resolution_view(r) == spec_resolve_text(opt_view(args.user), interactive, "user"@),
    {
        resolve_text(args.user.clone(), interactive, "user")
    }

    /// Resolves the new password.
    pub fn resolve_password(args: &ResetPasswordArgs, interactive: bool) -> (r: Result<Option<String>, String>)
        ensures
            crate::commands::resolution_view(r) == spec_resolve_text(opt_view(args.password), interactive, "password"@),
    {
        resolve_text(args.password.clone(), interactive, "password")
    }
}

} // verus!
