use calagopus_panel::models::nest_egg::{
    NestEgg, NestEggConfigScript, NestEggConfigStartup, NestEggConfigStop, ProcessConfigurationFile,
    ServerConfigurationFileParser,
};
use calagopus_panel::models::server::{
    choose_backup_configuration, collect_environment, host_or_placeholder, pinned_threads, sftp_host, user_server_cache_key,
    AdminApiServerLimits, ApiServerFeatureLimits, CreateServerOptions, DeleteOutcome, DeleteServerOptions,
    IdentifierError, RemoteServerRows, Server, ServerAllocation, ServerAutoStartBehavior, ServerIdentifier,
    ServerNodeFacts, ServerStatus, UpdateServerOptions, MAX_CREATE_RETRIES,
};
use calagopus_panel::models::ModelError;
use calagopus_panel::models::server::{create_step, join_schedules, user_may_access, ScheduleRow, CreateAction, CreateEvent, USER_SERVER_TTL};
use calagopus_panel::text_map::TextMap;
use calagopus_panel::routes::{list_files, ListFiles, Params};
use calagopus_panel::wings;

const SERVER_UUID: u128 = 0x1234_5678_9abc_4def_8123_4567_89ab_cdef;
const NODE_UUID: u128 = 0xaaaa_aaaa_aaaa_4aaa_8aaa_aaaa_aaaa_aaaa;

fn sample_egg() -> NestEgg {
    let mut images = TextMap::new();
    images.insert("Java 21".to_string(), "ghcr.io/java:21".to_string());
    NestEgg {
        uuid: 7,
        nest_uuid: 8,
        egg_repository_egg_uuid: None,
        name: "Paper".to_string(),
        description: None,
        author: "panel@example.com".to_string(),
        config_files: vec![ProcessConfigurationFile {
            file: "server.properties".to_string(),
            create_new: true,
            parser: ServerConfigurationFileParser::Properties,
            replace: vec![],
        }],
        config_startup: NestEggConfigStartup { done: vec!["Done".to_string()], strip_ansi: false },
        config_stop: NestEggConfigStop { kind: "command".to_string(), value: Some("stop".to_string()) },
        config_script: NestEggConfigScript {
            container: "alpine".to_string(),
            entrypoint: "ash".to_string(),
            content: "echo install".to_string(),
        },
        startup: "java -jar server.jar".to_string(),
        force_outgoing_ip: false,
        separate_port: false,
        features: vec!["eula".to_string()],
        docker_images: images,
        file_denylist: vec![],
        created: 1,
    }
}

fn sample_server() -> Server {
    Server {
        uuid: SERVER_UUID,
        uuid_short: 0x1234_5678,
        external_id: None,
        allocation: Some(ServerAllocation { uuid: 1, ip: "10.0.0.5".to_string(), port: 25565 }),
        destination_allocation_uuid: None,
        node_uuid: NODE_UUID,
        destination_node_uuid: None,
        owner_uuid: 42,
        egg: sample_egg(),
        nest_uuid: 8,
        backup_configuration_uuid: None,
        status: None,
        suspended: false,
        name: "Survival".to_string(),
        description: Some("friends only".to_string()),
        memory: 4096,
        memory_overhead: 256,
        swap: 0,
        disk: 10240,
        io_weight: Some(500),
        cpu: 200,
        pinned_cpus: vec![0, 2],
        startup: "java -Xmx4G -jar server.jar".to_string(),
        image: "ghcr.io/java:21".to_string(),
        auto_kill: wings::ServerConfigurationAutoKill { enabled: false, seconds: 30 },
        auto_start_behavior: ServerAutoStartBehavior::UnlessStopped,
        timezone: None,
        hugepages_passthrough_enabled: false,
        kvm_passthrough_enabled: false,
        allocation_limit: 1,
        database_limit: 2,
        backup_limit: 3,
        schedule_limit: 4,
        subuser_permissions: None,
        subuser_ignored_files: None,
        created: 1_700_000_000_000_000,
    }
}

fn empty_update() -> UpdateServerOptions {
    UpdateServerOptions {
        owner_uuid: None,
        egg_uuid: None,
        backup_configuration_uuid: None,
        suspended: None,
        external_id: None,
        name: None,
        description: None,
        limits: None,
        pinned_cpus: None,
        startup: None,
        image: None,
        timezone: None,
        hugepages_passthrough_enabled: None,
        kvm_passthrough_enabled: None,
        feature_limits: None,
    }
}

fn sample_create_options() -> CreateServerOptions {
    CreateServerOptions {
        node_uuid: NODE_UUID,
        owner_uuid: 42,
        egg_uuid: 7,
        backup_configuration_uuid: None,
        allocation_uuid: None,
        allocation_uuids: vec![],
        start_on_completion: true,
        skip_installer: false,
        external_id: None,
        name: "Survival".to_string(),
        description: None,
        limits: AdminApiServerLimits { cpu: 100, memory: 1024, memory_overhead: 0, swap: -1, disk: 2048, io_weight: None },
        pinned_cpus: vec![],
        startup: "./start.sh".to_string(),
        image: "alpine".to_string(),
        timezone: None,
        hugepages_passthrough_enabled: false,
        kvm_passthrough_enabled: false,
        feature_limits: ApiServerFeatureLimits { allocations: 0, databases: 0, backups: 0, schedules: 0 },
        variables: vec![],
    }
}

#[test]
fn owner_and_admin_permissions() {
    let s = sample_server();
    assert_eq!(s.wings_permissions(true, false, false), vec![
        "websocket.connect",
        "meta.calagopus",
        "*",
        "admin.websocket.errors",
        "admin.websocket.install",
        "admin.websocket.transfer"
    ]);
    assert_eq!(s.wings_permissions(false, true, false), vec![
        "websocket.connect",
        "meta.calagopus",
        "admin.websocket.install",
        "*"
    ]);
}

#[test]
fn subuser_permissions_are_expanded() {
    let mut s = sample_server();
    s.subuser_permissions = Some(vec!["control.read-console".to_string(), "files.read".to_string()]);
    assert_eq!(s.wings_permissions(false, true, true), vec![
        "websocket.connect",
        "meta.calagopus",
        "admin.websocket.install",
        "admin.websocket.transfer",
        "control.read-console",
        "files.read"
    ]);
    let direct = s.wings_subuser_permissions(false, &vec!["files.read".to_string()], true, true);
    assert_eq!(direct, vec!["websocket.connect", "meta.calagopus", "files.read"]);
    // Every list starts with the base permissions.
    for admin in [false, true] {
        let p = s.wings_permissions(admin, false, false);
        assert_eq!(&p[..2], &["websocket.connect".to_string(), "meta.calagopus".to_string()]);
    }
}

#[test]
fn transfers_and_reinstalls() {
    let mut s = sample_server();
    let same = s.check_transfer(NODE_UUID).unwrap_err();
    assert_eq!((same.status, same.message.as_str()), (409, "destination node must be different from the current node"));
    assert_eq!(s.check_transfer(1), Ok(()));
    s.status = Some(ServerStatus::Installing);
    let busy = s.check_transfer(1).unwrap_err();
    assert_eq!((busy.status, busy.message.as_str()), (409, "server is in an invalid state for transferring"));
    // With a status and its own node as the destination, the node is named.
    let own = s.check_transfer(NODE_UUID).unwrap_err();
    assert_eq!((own.status, own.message.as_str()), (409, "destination node must be different from the current node"));
    s.status = None;
    s.destination_node_uuid = Some(1);
    let moving = s.check_transfer(2).unwrap_err();
    assert_eq!((moving.status, moving.message.as_str()), (409, "server is already being transferred"));
    assert_eq!(Server::check_reinstall(1), Ok(()));
    assert_eq!(
        Server::check_reinstall(0),
        Err("server is already installing or in an invalid state for reinstalling".to_string())
    );
}

#[test]
fn installation_script_defaults_to_the_eggs() {
    let s = sample_server();
    let script = s.installation_script(None);
    assert_eq!(script.container_image, "alpine");
    assert_eq!(script.entrypoint, "ash");
    assert_eq!(script.script, "echo install");
    assert_eq!(script.environment.len(), 0);
}

#[test]
fn backup_configuration_precedence() {
    assert_eq!(choose_backup_configuration(Some(1), Some((Some(2), Some(3)))), Some(1));
    assert_eq!(choose_backup_configuration(None, Some((Some(2), Some(3)))), Some(2));
    assert_eq!(choose_backup_configuration(None, Some((None, Some(3)))), Some(3));
    assert_eq!(choose_backup_configuration::<u32>(None, None), None);
}

#[test]
fn threads_and_environment() {
    assert_eq!(pinned_threads(&vec![0, 2, 10]), Some("0,2,10".to_string()));
    assert_eq!(pinned_threads(&vec![]), None);
    let env = collect_environment(vec![
        ("A".to_string(), Some("1".to_string())),
        ("B".to_string(), None),
        ("A".to_string(), Some("2".to_string())),
    ]);
    assert_eq!(env.into_iter().collect::<Vec<_>>(), vec![("A".to_string(), "2".to_string()), ("B".to_string(), String::new())]);
}

#[test]
fn remote_description_for_the_daemon() {
    let s = sample_server();
    let rows = RemoteServerRows {
        variables: vec![("SERVER_JARFILE".to_string(), Some("server.jar".to_string()))],
        backups: vec![5],
        schedules: vec![],
        mounts: vec![],
        allocations: vec![("10.0.0.5".to_string(), 25565), ("10.0.0.5".to_string(), 25566), ("0.0.0.0".to_string(), 8080)],
    };
    let r = s.into_remote_api_object(rows);
    assert_eq!(r.settings.uuid, SERVER_UUID);
    assert_eq!(r.settings.meta.name, "Survival");
    assert_eq!(r.settings.meta.description, "friends only");
    assert_eq!(r.settings.invocation, "java -Xmx4G -jar server.jar");
    assert_eq!(r.settings.build.threads, Some("0,2".to_string()));
    assert_eq!(r.settings.build.io_weight, Some(500));
    assert_eq!(r.settings.build.disk_space, 10240);
    assert!(r.settings.build.oom_disabled);
    assert_eq!(r.settings.backups, vec![5]);
    assert_eq!(
        r.settings.environment.clone().into_iter().collect::<Vec<_>>(),
        vec![("SERVER_JARFILE".to_string(), "server.jar".to_string())]
    );
    assert_eq!(
        r.settings.allocations.mappings.clone().into_iter().collect::<Vec<_>>(),
        vec![("10.0.0.5".to_string(), vec![25565, 25566]), ("0.0.0.0".to_string(), vec![8080])]
    );
    let d = r.settings.allocations.default.unwrap();
    assert_eq!((d.ip.as_str(), d.port), ("10.0.0.5", 25565));
    assert_eq!(r.settings.auto_start_behavior, wings::ServerAutoStartBehavior::UnlessStopped);
    assert_eq!(r.process_configuration.configs.len(), 1);
    assert_eq!(r.process_configuration.configs[0].file, "server.properties");
}

#[test]
fn create_options_validation() {
    let mut o = sample_create_options();
    assert!(o.validate().is_empty());
    o.name = String::new();
    o.image = "a".to_string();
    o.limits.io_weight = Some(1001);
    o.pinned_cpus = vec![1, -1];
    assert_eq!(o.validate(), vec!["name", "limits", "pinned_cpus", "image"]);
}

#[test]
fn new_servers() {
    let mut o = sample_create_options();
    let n = o.new_server(0xdead_beef_0000_4000_8000_0000_0000_0000);
    assert_eq!((n.node_uuid, n.owner_uuid, n.egg_uuid), (NODE_UUID, 42, 7));
    assert_eq!(n.name, "Survival");
    assert_eq!((n.limits.memory, n.feature_limits.allocations), (1024, 0));
    assert_eq!(n.startup, "./start.sh");
    assert_eq!(n.uuid_short, 0xdead_beefu32 as i32);
    assert_eq!(n.status, Some(ServerStatus::Installing));
    o.skip_installer = true;
    assert_eq!(o.new_server(5).status, None);
    let g = o.generate_new_server();
    assert_eq!((g.uuid >> 76) & 0xf, 4);
    assert_eq!((g.uuid >> 62) & 0x3, 2);
    assert_eq!(g.uuid_short, (g.uuid >> 96) as u32 as i32);
    assert!(CreateServerOptions::retries_insert(0));
    assert!(CreateServerOptions::retries_insert(MAX_CREATE_RETRIES - 1));
    assert!(!CreateServerOptions::retries_insert(MAX_CREATE_RETRIES));
}

#[test]
fn updates_set_only_what_they_carry() {
    let mut s = sample_server();
    let mut o = empty_update();
    assert!(o.validate().is_empty());
    o.name = Some("Creative".to_string());
    o.description = Some(None);
    o.limits = Some(AdminApiServerLimits { cpu: 50, memory: 512, memory_overhead: 0, swap: -1, disk: 100, io_weight: None });
    s.apply_update(o, None);
    assert_eq!(s.name, "Creative");
    assert_eq!(s.description, None);
    assert_eq!((s.cpu, s.memory, s.swap, s.disk, s.io_weight), (50, 512, -1, 100, None));
    assert_eq!(s.startup, "java -Xmx4G -jar server.jar");
    assert_eq!(s.allocation_limit, 1);
    // Applying the same update again changes nothing more.
    let mut again = empty_update();
    again.name = Some("Creative".to_string());
    again.description = Some(None);
    s.apply_update(again, None);
    assert_eq!(s.name, "Creative");
    assert_eq!(s.description, None);
}

#[test]
fn empty_update_changes_nothing() {
    let mut s = sample_server();
    s.apply_update(empty_update(), None);
    let t = sample_server();
    assert_eq!((s.name, s.description, s.cpu, s.memory), (t.name, t.description, t.cpu, t.memory));
    assert_eq!((s.startup, s.image, s.pinned_cpus), (t.startup, t.image, t.pinned_cpus));
}

#[test]
fn update_options_validation() {
    let mut o = empty_update();
    o.external_id = Some(Some(String::new()));
    o.pinned_cpus = Some(vec![-3]);
    o.feature_limits = Some(ApiServerFeatureLimits { allocations: -1, databases: 0, backups: 0, schedules: 0 });
    assert_eq!(o.validate(), vec!["external_id", "pinned_cpus", "feature_limits"]);
}

#[test]
fn identifiers() {
    assert_eq!(ServerIdentifier::parse("deadbeef"), Ok(Some(ServerIdentifier::Short(0xdead_beefu32 as i32))));
    assert_eq!(ServerIdentifier::parse("deadbeeg"), Err(IdentifierError::BadShort));
    assert_eq!(
        ServerIdentifier::parse("12345678-9abc-4def-8123-456789abcdef"),
        Ok(Some(ServerIdentifier::Uuid(SERVER_UUID)))
    );
    assert_eq!(ServerIdentifier::parse("12345678-9abc-4def-8123-456789abcdeX"), Err(IdentifierError::BadUuid));
    assert_eq!(ServerIdentifier::parse("short"), Ok(None));
}

#[test]
fn deletions() {
    let d = DeleteServerOptions::default();
    assert!(d.stops_on_database_error());
    assert_eq!(d.outcome(true), DeleteOutcome::Commit);
    assert_eq!(d.outcome(false), DeleteOutcome::Rollback);
    let f = DeleteServerOptions { force: true };
    assert!(!f.stops_on_database_error());
    assert_eq!(f.outcome(false), DeleteOutcome::Commit);
}

#[test]
fn sftp_hosts() {
    let mut n = ServerNodeFacts {
        uuid: NODE_UUID,
        name: "node".to_string(),
        maintenance_enabled: false,
        location_uuid: 3,
        location_name: "eu".to_string(),
        sftp_host: Some("sftp.example.com".to_string()),
        public_url: Some("https://public.example.com:8443".to_string()),
        url: "https://internal.example.com".to_string(),
        sftp_port: 2022,
    };
    assert_eq!(sftp_host(&n), "sftp.example.com");
    n.sftp_host = None;
    assert_eq!(sftp_host(&n), "public.example.com");
    n.public_url = None;
    assert_eq!(sftp_host(&n), "internal.example.com");
    n.url = "not a url".to_string();
    assert_eq!(sftp_host(&n), "unknown.sftp.host");
}

#[test]
fn ignored_files_and_cache_keys() {
    let mut s = sample_server();
    assert!(!s.is_ignored("config.env", false));
    s.subuser_ignored_files = Some(vec!["*.env".to_string()]);
    assert!(s.is_ignored("config.env", false));
    assert!(!s.is_ignored("readme.md", false));
    assert_eq!(
        user_server_cache_key(SERVER_UUID, "12345678"),
        "user::12345678-9abc-4def-8123-456789abcdef::server::12345678"
    );
    let f = s.feature_limits();
    assert_eq!((f.allocations, f.databases, f.backups, f.schedules), (1, 2, 3, 4));
}

#[test]
fn file_listings() {
    let mut s = sample_server();
    let params = Params { page: 1, per_page: 50, directory: "/".to_string(), sort: "name_asc".to_string() };
    match list_files(&params, true, &s) {
        ListFiles::Fetch(path) => assert_eq!(
            path,
            "/api/servers/12345678-9abc-4def-8123-456789abcdef/files/list?directory=%2F&ignored=&per_page=50&page=1&sort=name_asc"
        ),
        _ => panic!("expected a fetch"),
    }
    let bad = Params { page: 0, per_page: 50, directory: "/".to_string(), sort: "name_asc".to_string() };
    match list_files(&bad, true, &s) {
        ListFiles::Invalid(body) => assert_eq!(body, r#"{"errors":["page"]}"#),
        _ => panic!("expected a refusal"),
    }
    s.subuser_ignored_files = Some(vec!["secret".to_string()]);
    let hidden = Params { page: 1, per_page: 50, directory: "secret".to_string(), sort: "name_asc".to_string() };
    assert!(matches!(list_files(&hidden, true, &s), ListFiles::Hidden(ref m) if m == "directory not found"));
    assert!(matches!(list_files(&params, false, &s), ListFiles::Denied));
    assert!(matches!(list_files(&bad, false, &s), ListFiles::Invalid(_)));
    match list_files(&params, true, &s) {
        ListFiles::Fetch(path) => assert!(path.contains("&ignored=secret&")),
        _ => panic!("expected a fetch"),
    }
}

#[test]
fn transfer_requests_and_claims() {
    let (url, header) = Server::transfer_request("https://node2.example.com:8080/", "tok").unwrap();
    assert_eq!(url, "https://node2.example.com:8080/api/transfers");
    assert_eq!(header, "Bearer tok");
    assert!(Server::transfer_request("not a url", "tok").is_none());
    let claims = sample_server().transfer_claims(1_000);
    assert_eq!(claims.issuer, "panel");
    assert_eq!(claims.subject, Some("12345678-9abc-4def-8123-456789abcdef".to_string()));
    assert!(claims.audience.is_empty());
    assert_eq!(claims.expiration_time, Some(1_600));
    assert_eq!(claims.not_before, None);
    assert_eq!(claims.issued_at, Some(1_000));
    assert_eq!(claims.jwt_id, "aaaaaaaa-aaaa-4aaa-8aaa-aaaaaaaaaaaa");
}

#[test]
fn subusers_get_only_what_they_were_given() {
    let mut s = sample_server();
    s.subuser_permissions = Some(vec!["files.read".to_string()]);
    let p = s.wings_permissions(false, true, true);
    assert_eq!(p, vec!["websocket.connect", "meta.calagopus", "files.read"]);
    assert!(!p.iter().any(|x| x == "*" || x.starts_with("admin.")));
}

#[test]
fn sftp_host_fallback() {
    assert_eq!(host_or_placeholder(Some("h.example.com".to_string())), "h.example.com");
    assert_eq!(host_or_placeholder(None), "unknown.sftp.host");
}

#[test]
fn server_updates_are_refused_whole() {
    let mut s = sample_server();
    let mut bad = empty_update();
    bad.name = Some(String::new());
    bad.startup = Some("./other".to_string());
    assert_eq!(s.update(bad, true, None, true), Err(ModelError::Validation(vec!["name".to_string()])));
    assert_eq!(s.startup, "java -Xmx4G -jar server.jar");
    let mut missing_owner = empty_update();
    missing_owner.owner_uuid = Some(9);
    missing_owner.name = Some("x".to_string());
    assert_eq!(s.update(missing_owner, false, None, true), Err(ModelError::InvalidRelation("owner".to_string())));
    assert_eq!(s.name, "Survival");
    let mut missing_egg = empty_update();
    missing_egg.egg_uuid = Some(99);
    assert_eq!(s.update(missing_egg, true, None, true), Err(ModelError::InvalidRelation("egg".to_string())));
    let mut missing_backup = empty_update();
    missing_backup.backup_configuration_uuid = Some(Some(5));
    assert_eq!(
        s.update(missing_backup, true, None, false),
        Err(ModelError::InvalidRelation("backup_configuration".to_string()))
    );
    let mut good = empty_update();
    good.name = Some("Creative".to_string());
    good.owner_uuid = Some(43);
    assert_eq!(s.update(good, true, None, false), Ok(()));
    assert_eq!((s.name.as_str(), s.owner_uuid), ("Creative", 43));
}

#[test]
fn creation_checks() {
    let o = sample_create_options();
    assert_eq!(o.check(true, true, true, false), Ok(()));
    assert_eq!(o.check(false, true, true, true), Err(ModelError::InvalidRelation("node".to_string())));
    assert_eq!(o.check(true, true, false, true), Err(ModelError::InvalidRelation("egg".to_string())));
    let mut with_backup = sample_create_options();
    with_backup.backup_configuration_uuid = Some(3);
    assert_eq!(with_backup.check(true, true, true, false), Err(ModelError::InvalidRelation("backup_configuration".to_string())));
    let mut bad = sample_create_options();
    bad.name = String::new();
    assert_eq!(bad.check(false, false, false, false), Err(ModelError::Validation(vec!["name".to_string()])));
}

#[test]
fn access_to_servers() {
    let perms = vec!["nodes.read".to_string(), "servers.read".to_string()];
    assert!(user_may_access(1, 1, false, false, None));
    assert!(user_may_access(1, 2, true, false, None));
    assert!(user_may_access(1, 2, false, true, None));
    assert!(user_may_access(1, 2, false, false, Some(&perms)));
    assert!(!user_may_access(1, 2, false, false, Some(&vec!["nodes.read".to_string()])));
    assert!(!user_may_access(1, 2, false, false, None));
    assert_eq!(USER_SERVER_TTL, 5);
}

#[test]
fn server_columns_with_their_egg() {
    let c = Server::columns(None);
    assert_eq!(c.len(), 47);
    assert_eq!(c[0], ("servers.uuid".to_string(), "uuid".to_string()));
    assert_eq!(c[29], ("servers.created".to_string(), "created".to_string()));
    assert_eq!(c[30], ("nest_eggs.uuid".to_string(), "egg_uuid".to_string()));
    assert_eq!(c[46], ("nest_eggs.created".to_string(), "egg_created".to_string()));
    let p = Server::columns(Some("s_"));
    assert_eq!(p[9], ("servers.name".to_string(), "s_name".to_string()));
    assert_eq!(p[31], ("nest_eggs.nest_uuid".to_string(), "egg_nest_uuid".to_string()));
}

#[test]
fn creation_steps() {
    assert_eq!(create_step(0, CreateEvent::Inserted), (CreateAction::PostToNode, 0));
    assert_eq!(create_step(0, CreateEvent::InsertFailed), (CreateAction::RetryInsert, 1));
    assert_eq!(create_step(7, CreateEvent::InsertFailed), (CreateAction::RetryInsert, 8));
    assert_eq!(create_step(8, CreateEvent::InsertFailed), (CreateAction::RollBack, 8));
    assert_eq!(create_step(3, CreateEvent::NodeAccepted), (CreateAction::Finish, 3));
    assert_eq!(create_step(3, CreateEvent::NodeRefused), (CreateAction::DeleteAndFail, 3));
    // Retrying from nothing ends after the ninth failed insertion.
    let mut attempts = 0;
    let mut inserts = 1;
    loop {
        let (action, next) = create_step(attempts, CreateEvent::InsertFailed);
        if action != CreateAction::RetryInsert {
            break;
        }
        attempts = next;
        inserts += 1;
    }
    assert_eq!(inserts, 9);
}

#[test]
fn ignored_files_skip_comments_and_trailing_spaces() {
    let mut s = sample_server();
    s.subuser_ignored_files = Some(vec!["# *.md".to_string(), "".to_string(), "   ".to_string(), "*.env  ".to_string()]);
    assert!(s.is_ignored("config.env", false));
    assert!(!s.is_ignored("readme.md", false));
    s.subuser_ignored_files = Some(vec!["#x".to_string()]);
    assert!(!s.is_ignored("#x", false));
}

#[test]
fn schedules_take_their_steps() {
    let row = |uuid: u128, t: &str| ScheduleRow { uuid, triggers: t.to_string(), condition: "{}".to_string() };
    let joined = join_schedules(
        vec![row(1, "[\"a\"]"), row(2, "[\"b\"]")],
        vec![vec!["{\"uuid\":\"s1\"}".to_string(), "{\"uuid\":\"s2\"}".to_string()], vec![]],
    );
    assert_eq!(joined.len(), 2);
    assert_eq!((joined[0].uuid, joined[0].triggers.as_str()), (1, "[\"a\"]"));
    assert_eq!(joined[0].actions, vec!["{\"uuid\":\"s1\"}", "{\"uuid\":\"s2\"}"]);
    assert_eq!((joined[1].uuid, joined[1].actions.len()), (2, 0));
    // A repeated identifier: the first takes the last one's steps, the
    // second none, as steps filed by identifier are taken out once.
    let repeated = join_schedules(vec![row(7, "x"), row(7, "y")], vec![vec!["a".to_string()], vec!["b".to_string()]]);
    assert_eq!(repeated[0].actions, vec!["b"]);
    assert!(repeated[1].actions.is_empty());
}
