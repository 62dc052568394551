use calagopus_panel::models::database_host::{
    CreateDatabaseHostOptions, DatabaseHost, DatabaseType, UpdateDatabaseHostOptions,
};
use calagopus_panel::models::egg_repository::{CreateEggRepositoryOptions, UpdateEggRepositoryOptions};
use calagopus_panel::models::location::{CreateLocationOptions, Location, UpdateLocationOptions};
use calagopus_panel::models::mount::Mount;
use calagopus_panel::models::ModelError;
use calagopus_panel::models::node::{
    node_cache_key, token_cache_key, token_matches, CreateNodeOptions, Node, NodeToken, UpdateNodeOptions,
};
use calagopus_panel::models::role::{CreateRoleOptions, UpdateRoleOptions};

fn location() -> Location {
    Location { uuid: 1, backup_configuration_uuid: None, name: "eu".to_string(), description: None, created: 0 }
}

fn node() -> Node {
    Node {
        uuid: 2,
        location: location(),
        backup_configuration_uuid: None,
        name: "node-1".to_string(),
        description: None,
        deployment_enabled: true,
        maintenance_enabled: false,
        public_url: None,
        url: "https://node.example.com/".to_string(),
        sftp_host: None,
        sftp_port: 2022,
        memory: 8192,
        disk: 100_000,
        token_id: "abcdefghijklmnop".to_string(),
        token: vec![1, 2, 3],
        created: 0,
    }
}

fn no_node_update() -> UpdateNodeOptions {
    UpdateNodeOptions {
        location_uuid: None,
        backup_configuration_uuid: None,
        name: None,
        description: None,
        deployment_enabled: None,
        maintenance_enabled: None,
        public_url: None,
        url: None,
        sftp_host: None,
        sftp_port: None,
        memory: None,
        disk: None,
    }
}

fn database_host(kind: DatabaseType) -> DatabaseHost {
    DatabaseHost {
        uuid: 3,
        name: "db".to_string(),
        kind,
        deployment_enabled: true,
        maintenance_enabled: false,
        public_host: Some("db.example.com".to_string()),
        host: "10.0.0.9".to_string(),
        public_port: None,
        port: 70000,
        username: "panel".to_string(),
        password: vec![9, 9],
        created: 0,
    }
}

#[test]
fn locations() {
    let ok = CreateLocationOptions { backup_configuration_uuid: None, name: "eu".to_string(), description: None };
    assert!(ok.validate().is_empty());
    let bad = CreateLocationOptions { backup_configuration_uuid: None, name: String::new(), description: Some(String::new()) };
    assert_eq!(bad.validate(), vec!["name", "description"]);
    let mut l = location();
    let update = UpdateLocationOptions { backup_configuration_uuid: Some(Some(4)), name: None, description: Some(Some("west".to_string())) };
    assert!(update.validate().is_empty());
    l.apply_update(update);
    assert_eq!((l.backup_configuration_uuid, l.name.as_str(), l.description.as_deref()), (Some(4), "eu", Some("west")));
}

#[test]
fn node_options() {
    let ok = CreateNodeOptions {
        location_uuid: 1,
        backup_configuration_uuid: None,
        name: "n".to_string(),
        description: None,
        deployment_enabled: true,
        maintenance_enabled: false,
        public_url: None,
        url: "https://node.example.com".to_string(),
        sftp_host: None,
        sftp_port: 2022,
        memory: 1,
        disk: 1,
    };
    assert!(ok.validate().is_empty());
    let bad = CreateNodeOptions { url: "not a url".to_string(), sftp_port: 0, memory: 0, ..ok };
    assert_eq!(bad.validate(), vec!["url", "sftp_port", "memory"]);
    let mut u = no_node_update();
    u.public_url = Some(Some("nope".to_string()));
    u.disk = Some(0);
    assert_eq!(u.validate(), vec!["public_url", "disk"]);
}

#[test]
fn node_updates_store_parsed_urls() {
    let mut n = node();
    let mut u = no_node_update();
    u.url = Some("https://NEW.example.com".to_string());
    u.sftp_port = Some(2222);
    assert_eq!(n.apply_update(u, None), Ok(()));
    assert_eq!(n.url, "https://new.example.com/");
    assert_eq!(n.sftp_port, 2222);
    assert_eq!(n.public_url(), "https://new.example.com/");
    let mut bad = no_node_update();
    bad.name = Some("renamed".to_string());
    bad.url = Some("::".to_string());
    bad.memory = Some(1);
    let expected = reqwest::Url::parse("::").unwrap_err().to_string();
    assert_eq!(n.apply_update(bad, None), Err(expected));
    assert_eq!(n.name, "renamed");
    assert_eq!(n.url, "https://new.example.com/");
    assert_eq!(n.memory, 8192);
    let mut moved = no_node_update();
    moved.location_uuid = Some(9);
    let mut there = location();
    there.uuid = 9;
    assert_eq!(n.apply_update(moved, Some(there)), Ok(()));
    assert_eq!(n.location.uuid, 9);
}

#[test]
fn node_tokens() {
    let t = NodeToken::generate();
    assert_eq!(t.token_id.len(), 16);
    assert_eq!(t.token.len(), 64);
    assert!(t.token_id.chars().chain(t.token.chars()).all(|c| c.is_ascii_alphanumeric()));
    assert!(token_matches(b"secret", b"secret"));
    assert!(!token_matches(b"secret", b"secreT"));
    assert!(!token_matches(b"secret", b"secret!"));
    assert_eq!(token_cache_key("abc", "xyz"), "node::token::abc.xyz");
    assert_eq!(node_cache_key(2, "configuration"), "node::00000000-0000-0000-0000-000000000002::configuration");
}

#[test]
fn database_hosts() {
    let my = database_host(DatabaseType::Mysql);
    let target = my.connection_target();
    assert_eq!((target.host.as_str(), target.port, target.username.as_str()), ("10.0.0.9", 70000u32 as u16, "panel"));
    assert_eq!(target.database, None);
    let pg = database_host(DatabaseType::Postgres).connection_target();
    assert_eq!(pg.database, Some("postgres".to_string()));
    assert_eq!(DatabaseType::Postgres.as_str(), "postgres");
    let api = database_host(DatabaseType::Mysql).into_api_object();
    assert_eq!((api.host.as_str(), api.port), ("db.example.com", 70000));
    let mut h = database_host(DatabaseType::Mysql);
    let update = UpdateDatabaseHostOptions {
        name: None,
        deployment_enabled: Some(false),
        maintenance_enabled: None,
        public_host: Some(None),
        host: None,
        public_port: Some(Some(3307)),
        port: Some(3306),
        username: None,
        password: Some("new".to_string()),
    };
    assert!(update.validate().is_empty());
    h.apply_update(update, Some(vec![7]));
    assert_eq!((h.deployment_enabled, h.public_host.clone(), h.public_port, h.port), (false, None, Some(3307), 3306));
    assert_eq!(h.password, vec![7]);
    let create = CreateDatabaseHostOptions {
        name: "db".to_string(),
        kind: DatabaseType::Mysql,
        deployment_enabled: true,
        maintenance_enabled: false,
        public_host: None,
        host: "h".to_string(),
        public_port: Some(0),
        port: 3306,
        username: "ab".to_string(),
        password: String::new(),
    };
    assert_eq!(create.validate(), vec!["host", "public_port", "username", "password"]);
}

#[test]
fn repositories_roles_and_mounts() {
    let repo = CreateEggRepositoryOptions {
        name: "eggs".to_string(),
        description: None,
        git_repository: "https://github.com/example/eggs.git".to_string(),
    };
    assert!(repo.validate().is_empty());
    let bad = UpdateEggRepositoryOptions { name: Some(String::new()), description: None, git_repository: Some("eggs".to_string()) };
    assert_eq!(bad.validate(), vec!["name", "git_repository"]);
    let role = CreateRoleOptions {
        name: "mods".to_string(),
        description: None,
        require_two_factor: false,
        admin_permissions: vec![],
        server_permissions: vec!["control.start".to_string()],
    };
    assert!(role.validate(true, true).is_empty());
    assert_eq!(role.validate(true, false), vec!["server_permissions"]);
    let update = UpdateRoleOptions {
        name: None,
        description: None,
        require_two_factor: None,
        admin_permissions: None,
        server_permissions: None,
    };
    assert!(update.validate(false, false).is_empty());
    let m = Mount {
        uuid: 1,
        name: "maps".to_string(),
        description: None,
        source: "/srv/maps".to_string(),
        target: "/home/container/maps".to_string(),
        read_only: true,
        user_mountable: false,
        created: 0,
    };
    let w = m.into_wings_mount();
    assert_eq!((w.source.as_str(), w.target.as_str(), w.read_only), ("/srv/maps", "/home/container/maps", true));
}

#[test]
fn refused_node_updates_change_nothing() {
    let mut n = node();
    let mut bad = no_node_update();
    bad.name = Some("renamed".to_string());
    bad.memory = Some(0);
    assert_eq!(n.update(bad, None, true), Err(ModelError::Validation(vec!["memory".to_string()])));
    assert_eq!(n.name, "node-1");
    let mut moved = no_node_update();
    moved.location_uuid = Some(9);
    moved.name = Some("renamed".to_string());
    assert_eq!(n.update(moved, None, true), Err(ModelError::InvalidRelation("location".to_string())));
    assert_eq!((n.name.as_str(), n.location.uuid), ("node-1", 1));
    let mut backed = no_node_update();
    backed.backup_configuration_uuid = Some(Some(5));
    assert_eq!(n.update(backed, None, false), Err(ModelError::InvalidRelation("backup_configuration".to_string())));
    assert_eq!(n.backup_configuration_uuid, None);
    let mut moved = no_node_update();
    moved.location_uuid = Some(9);
    moved.name = Some("renamed".to_string());
    let mut there = location();
    there.uuid = 9;
    assert_eq!(n.update(moved, Some(there), true), Ok(()));
    assert_eq!((n.name.as_str(), n.location.uuid), ("renamed", 9));
}

#[test]
fn selected_columns() {
    let l = Location::columns(None);
    assert_eq!(l.len(), 5);
    assert_eq!(l[0], ("locations.uuid".to_string(), "uuid".to_string()));
    assert_eq!(l[1], ("locations.backup_configuration_uuid".to_string(), "location_backup_configuration_uuid".to_string()));
    let n = Node::columns(Some("node_"));
    assert_eq!(n.len(), 20);
    assert_eq!(n[0], ("nodes.uuid".to_string(), "node_uuid".to_string()));
    assert_eq!(n[1], ("nodes.backup_configuration_uuid".to_string(), "node_node_backup_configuration_uuid".to_string()));
    assert_eq!(n[15], ("locations.uuid".to_string(), "location_uuid".to_string()));
    assert_eq!(n[16], ("locations.backup_configuration_uuid".to_string(), "location_location_backup_configuration_uuid".to_string()));
}
