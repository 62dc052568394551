//! Database hosts: the MySQL and PostgreSQL servers that server databases
//! are made on.

use vstd::prelude::*;
use crate::models::{append_columns, column_list, column_pairs, pair_views, prefix_text, prefixed_columns};
use crate::models::{pick, set_if};
use crate::validation::{texts, flag, bytes_within, chars_within, opt_chars_within, note, text_within, opt_text_within, bytes_at_most};

verus! {

/// The kind of a database server.
#[derive(Clone, Copy, PartialEq, Eq, Debug)]
pub enum DatabaseType {
    Mysql,
    Postgres,
}

/// The name of a database kind on the wire.
pub open spec fn database_type_name(t: DatabaseType) -> Seq<char> {
    match t {
        DatabaseType::Mysql => "mysql"@,
        DatabaseType::Postgres => "postgres"@,
    }
}

impl DatabaseType {
    /// The kind's name on the wire.
    pub fn as_str(&self) -> (s: &'static str)
        ensures
            s@ == database_type_name(*self),
    {
        match self {
            DatabaseType::Mysql => "mysql",
            DatabaseType::Postgres => "postgres",
        }
    }
}

/// A database host as the panel stores it; the password is held
/// encrypted.
pub struct DatabaseHost {
    pub uuid: u128,
    pub name: String,
    pub kind: DatabaseType,
    pub deployment_enabled: bool,
    pub maintenance_enabled: bool,
    pub public_host: Option<String>,
    pub host: String,
    pub public_port: Option<i32>,
    pub port: i32,
    pub username: String,
    pub password: Vec<u8>,
    /// Microseconds since the Unix epoch.
    pub created: i64,
}

/// The options that create a database host.
pub struct CreateDatabaseHostOptions {
    pub name: String,
    pub kind: DatabaseType,
    pub deployment_enabled: bool,
    pub maintenance_enabled: bool,
    pub public_host: Option<String>,
    pub host: String,
    pub public_port: Option<u16>,
    pub port: u16,
    pub username: String,
    pub password: String,
}

/// The options that update a database host; an absent field stays as it
/// is, and `Some(None)` clears an optional one.
pub struct UpdateDatabaseHostOptions {
    pub name: Option<String>,
    pub deployment_enabled: Option<bool>,
    pub maintenance_enabled: Option<bool>,
    pub public_host: Option<Option<String>>,
    pub host: Option<String>,
    pub public_port: Option<Option<u16>>,
    pub port: Option<u16>,
    pub username: Option<String>,
    pub password: Option<String>,
}

/// The fields of creation options that break their limits, in field order.
pub open spec fn spec_create_errors(o: CreateDatabaseHostOptions) -> Seq<Seq<char>> {
    flag(!chars_within(o.name@, 1, 255), "name"@)
        + flag(!opt_chars_within(o.public_host, 3, 255), "public_host"@)
        + flag(!chars_within(o.host@, 3, 255), "host"@)
        + flag(!(match o.public_port {
            Some(p) => p >= 1,
            None => true,
        }), "public_port"@)
        + flag(!(o.port >= 1), "port"@)
        + flag(!chars_within(o.username@, 3, 255), "username"@)
        + flag(!chars_within(o.password@, 1, 512), "password"@)
}

/// The fields of update options that break their limits, in field order.
/// A public host is held to 255 bytes.
pub open spec fn spec_update_errors(o: UpdateDatabaseHostOptions) -> Seq<Seq<char>> {
    flag(!opt_chars_within(o.name, 1, 255), "name"@)
        + flag(!(match o.public_host {
            Some(Some(h)) => bytes_within(h@, 255),
            _ => true,
        }), "public_host"@)
        + flag(!opt_chars_within(o.host, 3, 255), "host"@)
        + flag(!(match o.public_port {
            Some(Some(p)) => p >= 1,
            _ => true,
        }), "public_port"@)
        + flag(!(match o.port {
            Some(p) => p >= 1,
            None => true,
        }), "port"@)
        + flag(!opt_chars_within(o.username, 3, 255), "username"@)
        + flag(!opt_chars_within(o.password, 1, 512), "password"@)
}

impl CreateDatabaseHostOptions {
    /// The fields that break their limits; empty when the options are valid.
    pub fn validate(&self) -> (errors: Vec<String>)
        ensures
            texts(errors@) == spec_create_errors(*self),
    {
        let mut errors: Vec<String> = Vec::new();
        note(&mut errors, text_within(self.name.as_str(), 1, 255), "name");
        note(&mut errors, opt_text_within(&self.public_host, 3, 255), "public_host");
        note(&mut errors, text_within(self.host.as_str(), 3, 255), "host");
        let public_port_ok = match self.public_port {
            Some(p) => p >= 1,
            None => true,
        };
        note(&mut errors, public_port_ok, "public_port");
        note(&mut errors, self.port >= 1, "port");
        note(&mut errors, text_within(self.username.as_str(), 3, 255), "username");
        note(&mut errors, text_within(self.password.as_str(), 1, 512), "password");
        assert(texts(errors@) =~= spec_create_errors(*self));
        errors
    }
}

impl UpdateDatabaseHostOptions {
    /// The fields that break their limits; empty when the options are valid.
    pub fn validate(&self) -> (errors: Vec<String>)
        ensures
            texts(errors@) == spec_update_errors(*self),
    {
        let mut errors: Vec<String> = Vec::new();
        note(&mut errors, opt_text_within(&self.name, 1, 255), "name");
        let public_host_ok = match &self.public_host {
            Some(Some(h)) => bytes_at_most(h.as_str(), 255),
            _ => true,
        };
        note(&mut errors, public_host_ok, "public_host");
        note(&mut errors, opt_text_within(&self.host, 3, 255), "host");
        let public_port_ok = match self.public_port {
            Some(Some(p)) => p >= 1,
            _ => true,
        };
        note(&mut errors, public_port_ok, "public_port");
        let port_ok = match self.port {
            Some(p) => p >= 1,
            None => true,
        };
        note(&mut errors, port_ok, "port");
        note(&mut errors, opt_text_within(&self.username, 3, 255), "username");
        note(&mut errors, opt_text_within(&self.password, 1, 512), "password");
        assert(texts(errors@) =~= spec_update_errors(*self));
        errors
    }
}

/// A host as administrators see it; the password is left out.
pub struct AdminApiDatabaseHost {
    pub uuid: u128,
    pub name: String,
    pub deployment_enabled: bool,
    pub maintenance_enabled: bool,
    pub kind: DatabaseType,
    pub public_host: Option<String>,
    pub host: String,
    pub public_port: Option<i32>,
    pub port: i32,
    pub username: String,
    pub created: i64,
}

/// A host as users see it: where they reach it.
pub struct ApiDatabaseHost {
    pub uuid: u128,
    pub name: String,
    pub maintenance_enabled: bool,
    pub kind: DatabaseType,
    pub host: String,
    pub port: i32,
}

/// Where the panel connects to make databases: the host, the port as the
/// connection takes it, the user, and for PostgreSQL the database to
/// connect to.
pub struct ConnectionTarget {
    pub host: String,
    pub port: u16,
    pub username: String,
    pub database: Option<String>,
}

impl DatabaseHost {
    /// Applies an update; `encrypted_password` is the new password as the
    /// database encrypted it, given exactly when the options set one.
    pub fn apply_update(&mut self, options: UpdateDatabaseHostOptions, encrypted_password: Option<Vec<u8>>)
        requires
            options.password is Some <==> encrypted_password is Some,
        ensures
            final(self).uuid == old(self).uuid,
            final(self).kind == old(self).kind,
            final(self).name == pick(options.name, old(self).name),
            final(self).deployment_enabled == pick(options.deployment_enabled, old(self).deployment_enabled),
            final(self).maintenance_enabled == pick(options.maintenance_enabled, old(self).maintenance_enabled),
            final(self).public_host == pick(options.public_host, old(self).public_host),
            final(self).host == pick(options.host, old(self).host),
            final(self).public_port == match options.public_port {
                Some(Some(p)) => Some(p as i32),
                Some(None) => None,
                None => old(self).public_port,
            },
            final(self).port == match options.port {
                Some(p) => p as i32,
                None => old(self).port,
            },
            final(self).username == pick(options.username, old(self).username),
            final(self).password == pick(encrypted_password, old(self).password),
            final(self).created == old(self).created,
    {
        set_if(&mut self.name, options.name);
        set_if(&mut self.deployment_enabled, options.deployment_enabled);
        set_if(&mut self.maintenance_enabled, options.maintenance_enabled);
        set_if(&mut self.public_host, options.public_host);
        set_if(&mut self.host, options.host);
        match options.public_port {
            Some(Some(p)) => {
                self.public_port = Some(p as i32);
            },
            Some(None) => {
                self.public_port = None;
            },
            None => {},
        }
        if let Some(p) = options.port {
            self.port = p as i32;
        }
        set_if(&mut self.username, options.username);
        set_if(&mut self.password, encrypted_password);
    }

    /// The host as administrators see it.
    pub fn into_admin_api_object(self) -> (r: AdminApiDatabaseHost)
        ensures
            r.uuid == self.uuid,
            r.name == self.name,
            r.deployment_enabled == self.deployment_enabled,
            r.maintenance_enabled == self.maintenance_enabled,
            r.kind == self.kind,
            r.public_host == self.public_host,
            r.host == self.host,
            r.public_port == self.public_port,
            r.port == self.port,
            r.username == self.username,
            r.created == self.created,
    {
        AdminApiDatabaseHost {
            uuid: self.uuid,
            name: self.name,
            deployment_enabled: self.deployment_enabled,
            maintenance_enabled: self.maintenance_enabled,
            kind: self.kind,
            public_host: self.public_host,
            host: self.host,
            public_port: self.public_port,
            port: self.port,
            username: self.username,
            created: self.created,
        }
    }

    /// The host as users see it: its public host and port where it has
    /// them, else its own.
    pub fn into_api_object(self) -> (r: ApiDatabaseHost)
        ensures
            r.uuid == self.uuid,
            r.name == self.name,
            r.maintenance_enabled == self.maintenance_enabled,
            r.kind == self.kind,
            r.host == pick(self.public_host, self.host),
            r.port == pick(self.public_port, self.port),
    {
        ApiDatabaseHost {
            uuid: self.uuid,
            name: self.name,
            maintenance_enabled: self.maintenance_enabled,
            kind: self.kind,
            host: match self.public_host {
                Some(h) => h,
                None => self.host,
            },
            port: match self.public_port {
                Some(p) => p,
                None => self.port,
            },
        }
    }

    /// Where to connect: the host's own address, its port cut to 16 bits,
    /// its user, and the `postgres` database for PostgreSQL hosts.
    pub fn connection_target(&self) -> (r: ConnectionTarget)
        ensures
            r.host == self.host,
            r.port == self.port as u16,
            r.username == self.username,
            match self.kind {
                DatabaseType::Mysql => r.database is None,
                DatabaseType::Postgres => r.database matches Some(d) && d@ == "postgres"@,
            },
    {
        ConnectionTarget {
            host: self.host.clone(),
            port: self.port as u16,
            username: self.username.clone(),
            database: match self.kind {
                DatabaseType::Mysql => None,
                DatabaseType::Postgres => Some("postgres".to_owned()),
            },
        }
    }
}

/// The columns of `database_hosts`, each with the name it is read back by.
pub open spec fn database_host_column_list() -> Seq<(Seq<char>, Seq<char>)> {
    seq![
        ("uuid"@, "uuid"@),
        ("name"@, "name"@),
        ("type"@, "type"@),
        ("deployment_enabled"@, "deployment_enabled"@),
        ("maintenance_enabled"@, "maintenance_enabled"@),
        ("public_host"@, "public_host"@),
        ("host"@, "host"@),
        ("public_port"@, "public_port"@),
        ("port"@, "port"@),
        ("username"@, "username"@),
        ("password"@, "password"@),
        ("created"@, "created"@),
    ]
}

impl DatabaseHost {
    /// The columns a query selects for a database host, read back under `prefix`.
    pub fn columns(prefix: Option<&str>) -> (r: Vec<(String, String)>)
        ensures
            pair_views(r@) == column_pairs("database_hosts"@, database_host_column_list(), prefix_text(prefix)),
    {
        let columns = vec![
            ("uuid", "uuid"),
            ("name", "name"),
            ("type", "type"),
            ("deployment_enabled", "deployment_enabled"),
            ("maintenance_enabled", "maintenance_enabled"),
            ("public_host", "public_host"),
            ("host", "host"),
            ("public_port", "public_port"),
            ("port", "port"),
            ("username", "username"),
            ("password", "password"),
            ("created", "created"),
        ];
        let r = prefixed_columns("database_hosts", columns.as_slice(), prefix);
        assert(column_list(columns@) =~= database_host_column_list());
        r
    }
}

} // verus!
