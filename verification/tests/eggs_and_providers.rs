use calagopus_panel::models::egg_configuration::{
    merge_configurations, validate_config_allocations, EggConfigAllocations, EggConfigAllocationsDeployment,
    EggConfigAllocationsUserSelfAssign, EggConfigRoutes, EggConfigRoutesRouteItem, EggConfiguration,
};
use calagopus_panel::models::nest_egg::{
    configuration_cache_key, egg_file_format, egg_file_size_ok, export_config_files, import_config_files,
    is_egg_file, normalize_description, validate_docker_images, EggFormat, ExportedNestEggVariable, NestEgg,
    NestEggConfigScript, NestEggConfigStartup, NestEggConfigStop, ProcessConfigurationFile,
    ServerConfigurationFileParser, UpdateNestEggOptions,
};
use calagopus_panel::models::oauth_provider::{extraction_outcome, render_match, JsonMatch, OAuthProvider, UpdateOAuthProviderOptions};
use calagopus_panel::models::ModelError;
use calagopus_panel::text_map::TextMap;

fn file(name: &str, parser: ServerConfigurationFileParser) -> ProcessConfigurationFile {
    ProcessConfigurationFile { file: name.to_string(), create_new: false, parser, replace: vec![] }
}

fn egg() -> NestEgg {
    let mut images = TextMap::new();
    images.insert("Java 17".to_string(), "ghcr.io/java:17".to_string());
    images.insert("Java 21".to_string(), "ghcr.io/java:21".to_string());
    NestEgg {
        uuid: 11,
        nest_uuid: 12,
        egg_repository_egg_uuid: None,
        name: "Paper".to_string(),
        description: Some("A fast server".to_string()),
        author: "panel@example.com".to_string(),
        config_files: vec![
            file("server.properties", ServerConfigurationFileParser::Properties),
            file("config/paper.yml", ServerConfigurationFileParser::Yaml),
        ],
        config_startup: NestEggConfigStartup { done: vec!["Done (".to_string()], strip_ansi: true },
        config_stop: NestEggConfigStop { kind: "command".to_string(), value: Some("stop".to_string()) },
        config_script: NestEggConfigScript {
            container: "alpine".to_string(),
            entrypoint: "ash".to_string(),
            content: "wget paper.jar".to_string(),
        },
        startup: "java -jar paper.jar".to_string(),
        force_outgoing_ip: true,
        separate_port: false,
        features: vec!["eula".to_string()],
        docker_images: images,
        file_denylist: vec!["*.jar".to_string()],
        created: 5,
    }
}

fn variable(env: &str, order: i16) -> ExportedNestEggVariable {
    ExportedNestEggVariable {
        name: env.to_lowercase(),
        description: Some(String::new()),
        description_translations: vec![],
        order,
        env_variable: env.to_string(),
        default_value: None,
        user_viewable: true,
        user_editable: true,
        secret: false,
        rules: vec!["required".to_string()],
    }
}

fn no_update() -> UpdateNestEggOptions {
    UpdateNestEggOptions {
        egg_repository_egg_uuid: None,
        author: None,
        name: None,
        description: None,
        config_files: None,
        config_startup: None,
        config_stop: None,
        config_script: None,
        startup: None,
        force_outgoing_ip: None,
        separate_port: None,
        features: None,
        docker_images: None,
        file_denylist: None,
    }
}

fn provider() -> OAuthProvider {
    OAuthProvider {
        uuid: 1,
        name: "GitHub".to_string(),
        description: None,
        client_id: "id".to_string(),
        client_secret: vec![],
        auth_url: "https://github.com/login/oauth/authorize".to_string(),
        token_url: "https://github.com/login/oauth/access_token".to_string(),
        info_url: "https://api.github.com/user".to_string(),
        scopes: vec!["read:user".to_string()],
        identifier_path: "$.id".to_string(),
        email_path: Some("$.email".to_string()),
        username_path: None,
        name_first_path: Some("$.name".to_string()),
        name_last_path: None,
        enabled: true,
        login_only: false,
        link_viewable: true,
        user_manageable: true,
        basic_auth: false,
        created: 0,
    }
}

#[test]
fn export_then_import_keeps_the_egg() {
    let e = egg();
    let exported = egg().into_exported(vec![variable("SERVER_JARFILE", 1)]);
    assert_eq!(exported.config.files.len(), 2);
    let (options, variables) = NestEgg::import_options(12, None, exported);
    assert_eq!(options.name, e.name);
    assert_eq!(options.author, e.author);
    assert_eq!(options.description, e.description);
    assert_eq!(options.startup, e.startup);
    assert_eq!(options.features, e.features);
    assert_eq!(options.file_denylist, e.file_denylist);
    assert_eq!(options.docker_images, e.docker_images);
    assert_eq!(options.config_files.len(), 2);
    assert_eq!(options.config_files[0].file, "server.properties");
    assert_eq!(options.config_files[1].file, "config/paper.yml");
    assert_eq!(options.config_files[1].parser, ServerConfigurationFileParser::Yaml);
    assert_eq!(variables.len(), 1);
}

#[test]
fn repeated_config_paths_keep_the_last_contents() {
    let mut first = file("a.yml", ServerConfigurationFileParser::Yaml);
    first.create_new = true;
    let files = vec![first, file("b.json", ServerConfigurationFileParser::Json), file("a.yml", ServerConfigurationFileParser::Yaml)];
    let exported = export_config_files(files);
    assert_eq!(exported.entries.len(), 2);
    assert_eq!(exported.entries[0].0, "a.yml");
    assert!(!exported.entries[0].1.create_new);
    let back = import_config_files(exported);
    assert_eq!(back.len(), 2);
    assert_eq!(back[1].file, "b.json");
}

#[test]
fn imported_variables() {
    let vars = vec![variable("A", 0), variable("B", 3), variable("C", 2)];
    let created = NestEgg::import_variables(11, vars, &vec![true, false, true]);
    assert_eq!(created.len(), 2);
    assert_eq!(created[0].env_variable, "A");
    assert_eq!(created[0].description, None);
    assert_eq!(created[1].env_variable, "C");
    assert_eq!(created[1].egg_uuid, 11);
    assert_eq!(NestEgg::import_update_order(4, 0), 5);
    assert_eq!(NestEgg::import_update_order(4, 9), 9);
    assert_eq!(NestEgg::unused_variables_order_base(&vec![variable("A", 0), variable("B", 3), variable("C", 2)]), 6);
    assert_eq!(NestEgg::unused_variables_order_base(&vec![]), 0);
    assert_eq!(normalize_description(Some(String::new())), None);
    assert_eq!(normalize_description(Some("x".to_string())), Some("x".to_string()));
    let exported = egg().into_exported(vec![variable("X", 1), variable("Y", 2)]);
    assert_eq!(NestEgg::exported_env_variables(&exported), vec!["X", "Y"]);
}

#[test]
fn egg_updates() {
    let mut e = egg();
    let mut o = no_update();
    o.name = Some("Purpur".to_string());
    o.description = Some(None);
    assert!(o.validate().is_empty());
    e.apply_update(o);
    assert_eq!(e.name, "Purpur");
    assert_eq!(e.description, None);
    assert_eq!(e.startup, "java -jar paper.jar");
    let mut same = egg();
    same.apply_update(no_update());
    assert_eq!(same.name, "Paper");
    assert_eq!(same.description, Some("A fast server".to_string()));
    let mut bad = no_update();
    bad.author = Some("a".to_string());
    bad.name = Some("ab".to_string());
    assert_eq!(bad.validate(), vec!["author", "name"]);
}

#[test]
fn docker_images_must_differ() {
    let mut images = TextMap::new();
    images.insert("A".to_string(), "img:1".to_string());
    images.insert("B".to_string(), "img:2".to_string());
    assert_eq!(validate_docker_images(&images), Ok(()));
    images.insert("C".to_string(), "img:1".to_string());
    assert!(validate_docker_images(&images).is_err());
}

#[test]
fn egg_files() {
    assert!(is_egg_file(false, "eggs/paper.json"));
    assert!(is_egg_file(false, "eggs/paper.yaml"));
    assert!(is_egg_file(false, "eggs/paper.yml"));
    assert!(!is_egg_file(true, "eggs/paper.json"));
    assert!(!is_egg_file(false, "eggs/readme.md"));
    assert!(egg_file_size_ok(true, 1024 * 1024));
    assert!(!egg_file_size_ok(true, 1024 * 1024 + 1));
    assert!(!egg_file_size_ok(false, 1));
    assert_eq!(egg_file_format("paper.json"), EggFormat::Json);
    assert_eq!(egg_file_format("paper.yml"), EggFormat::Yaml);
    assert_eq!(configuration_cache_key(11), "nest_egg::00000000-0000-0000-0000-00000000000b::configuration");
}

#[test]
fn configuration_merging() {
    let allocations = EggConfigAllocations {
        user_self_assign: EggConfigAllocationsUserSelfAssign { enabled: true, require_primary_allocation: false, start_port: 2000, end_port: 3000 },
        deployment: EggConfigAllocationsDeployment { dedicated: false, primary: None, additional: vec![] },
    };
    assert_eq!(validate_config_allocations(&allocations), Ok(()));
    let row = |uuid: u128, a: Option<EggConfigAllocations>, r: Option<EggConfigRoutes>| EggConfiguration {
        uuid,
        name: "c".to_string(),
        description: None,
        order: 0,
        eggs: vec![],
        config_allocations: a,
        config_routes: r,
        created: 0,
    };
    let routes = EggConfigRoutes { order: vec![EggConfigRoutesRouteItem::Route { path: "/console".to_string() }] };
    let merged = merge_configurations(vec![row(1, Some(allocations), None), row(2, None, Some(routes)), row(3, None, None)]);
    let api = merged.into_api_object();
    assert!(api.allocation_self_assign_enabled);
    assert!(!api.allocation_self_assign_require_primary);
    assert_eq!(api.route_order.map(|o| o.len()), Some(1));
    let none = merge_configurations(vec![]).into_api_object();
    assert!(!none.allocation_self_assign_enabled && none.route_order.is_none());
    let d = EggConfigAllocationsUserSelfAssign::default();
    assert!(d.is_valid());
    let bad = EggConfigAllocations {
        user_self_assign: EggConfigAllocationsUserSelfAssign { enabled: true, require_primary_allocation: true, start_port: 80, end_port: 90 },
        deployment: EggConfigAllocationsDeployment { dedicated: false, primary: None, additional: vec![] },
    };
    assert_eq!(
        validate_config_allocations(&bad),
        Err("port ranges must be 1024-65535 and start_port < end_port".to_string())
    );
}

#[test]
fn oauth_extraction() {
    let p = provider();
    let doc = r#"{"id":12345,"email":"a@b.c","name":"Ada"}"#;
    assert_eq!(p.extract_identifier(doc), Ok("12345".to_string()));
    assert_eq!(p.extract_email(doc), Ok("a@b.c".to_string()));
    assert_eq!(p.extract_name_first(doc), Ok("Ada".to_string()));
    assert_eq!(p.extract_name_last(doc), Ok("Last".to_string()));
    let username = p.extract_username(doc).unwrap();
    assert_eq!(username.len(), 10);
    assert!(username.chars().all(|c| c.is_ascii_alphanumeric()));
    let missing = p.extract_email(r#"{"id":1}"#).unwrap_err();
    assert!(missing.starts_with("unable to extract email from "));
    let mut no_email = provider();
    no_email.email_path = None;
    let e = no_email.extract_email(doc).unwrap();
    assert_eq!(e.len(), 23);
    assert!(e.ends_with("@oauth.c7s.rs"));
    let mut bad_path = provider();
    bad_path.identifier_path = "$[".to_string();
    assert!(bad_path.extract_identifier(doc).is_err());
}

#[test]
fn extraction_outcomes() {
    assert_eq!(extraction_outcome(Ok(Some(JsonMatch::Text("x".to_string()))), "email", "{}"), Ok("x".to_string()));
    assert_eq!(extraction_outcome(Ok(Some(JsonMatch::Json("[1,2]".to_string()))), "email", "{}"), Ok("[1,2]".to_string()));
    assert_eq!(render_match(JsonMatch::Text("a".to_string())), "a");
    assert_eq!(extraction_outcome(Err("bad path".to_string()), "email", "{}"), Err("bad path".to_string()));
    assert_eq!(
        extraction_outcome(Ok(None), "email", r#"{"a":1}"#),
        Err("unable to extract email from Object {\"a\": Number(1)}".to_string())
    );
}

#[test]
fn refused_egg_updates_change_nothing() {
    let mut e = egg();
    let mut short = no_update();
    short.name = Some("ab".to_string());
    short.startup = Some("java -jar other.jar".to_string());
    assert_eq!(e.update(short, true), Err(ModelError::Validation(vec!["name".to_string()])));
    assert_eq!(e.name, "Paper");
    assert_eq!(e.startup, "java -jar paper.jar");
    let mut repeated = no_update();
    let mut images = TextMap::new();
    images.insert("A".to_string(), "img:1".to_string());
    images.insert("B".to_string(), "img:1".to_string());
    repeated.docker_images = Some(images);
    repeated.name = Some("Purpur".to_string());
    assert_eq!(e.update(repeated, true), Err(ModelError::Validation(vec!["docker_images".to_string()])));
    assert_eq!(e.name, "Paper");
    let mut linked = no_update();
    linked.egg_repository_egg_uuid = Some(Some(77));
    linked.name = Some("Purpur".to_string());
    assert_eq!(e.update(linked, false), Err(ModelError::InvalidRelation("egg_repository_egg".to_string())));
    assert_eq!(e.egg_repository_egg_uuid, None);
    assert_eq!(e.name, "Paper");
    let mut linked = no_update();
    linked.egg_repository_egg_uuid = Some(Some(77));
    linked.name = Some("Purpur".to_string());
    assert_eq!(e.update(linked, true), Ok(()));
    assert_eq!(e.egg_repository_egg_uuid, Some(77));
    assert_eq!(e.name, "Purpur");
}

fn no_provider_update() -> UpdateOAuthProviderOptions {
    UpdateOAuthProviderOptions {
        name: None,
        description: None,
        enabled: None,
        login_only: None,
        link_viewable: None,
        user_manageable: None,
        basic_auth: None,
        client_id: None,
        client_secret: None,
        auth_url: None,
        token_url: None,
        info_url: None,
        scopes: None,
        identifier_path: None,
        email_path: None,
        username_path: None,
        name_first_path: None,
        name_last_path: None,
    }
}

#[test]
fn provider_updates() {
    let mut p = provider();
    let mut bad = no_provider_update();
    bad.name = Some(String::new());
    bad.enabled = Some(false);
    assert_eq!(p.update(bad, None), Err(ModelError::Validation(vec!["name".to_string()])));
    assert_eq!(p.name, "GitHub");
    assert!(p.enabled);
    let mut good = no_provider_update();
    good.name = Some("GitLab".to_string());
    good.client_secret = Some("new-secret".to_string());
    assert_eq!(p.update(good, Some(vec![7, 7, 7])), Ok(()));
    assert_eq!(p.name, "GitLab");
    assert_eq!(p.client_secret, vec![7, 7, 7]);
    assert_eq!(p.client_id, "id");
}

#[test]
fn extraction_errors_come_from_the_document_first() {
    let mut bad_path = provider();
    bad_path.identifier_path = "$[".to_string();
    let doc_error = serde_json::from_str::<serde_json::Value>("not json").unwrap_err().to_string();
    assert_eq!(bad_path.extract_identifier("not json"), Err(doc_error.clone()));
    assert_eq!(provider().extract_identifier("not json"), Err(doc_error));
    let path_error = serde_json_path::JsonPath::parse("$[").unwrap_err().to_string();
    assert_eq!(bad_path.extract_identifier(r#"{"id":1}"#), Err(path_error));
}
