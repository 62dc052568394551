use calagopus_panel::wings::client::{
    backup_path, files_contents_path, files_fingerprints_path, files_list_directory_path, files_list_path,
    answer_outcome, files_write_path, logs_path, request_body, request_headers, WingsFailure, server_item_path, server_path, system_logs_file_path,
    transfer_path, version_path, WingsClient,
};

const SERVER: u128 = 0x1234_5678_9abc_4def_8123_4567_89ab_cdef;
const PREFIX: &str = "/api/servers/12345678-9abc-4def-8123-456789abcdef";

#[test]
fn client_urls_and_authorization() {
    let c = WingsClient::new("https://node.example.com:8080//".to_string(), "secret-token".to_string());
    assert_eq!(c.request_url("/api/system"), "https://node.example.com:8080/api/system");
    assert_eq!(c.raw_url("//download/file"), "https://node.example.com:8080/download/file");
    assert_eq!(c.authorization(), Some("Bearer secret-token".to_string()));
    let anonymous = WingsClient::new("http://n".to_string(), String::new());
    assert_eq!(anonymous.authorization(), None);
}

#[test]
fn msgpack_headers() {
    assert_eq!(request_headers(false), vec![("Accept", "application/msgpack")]);
    assert_eq!(
        request_headers(true),
        vec![("Accept", "application/msgpack"), ("Content-Type", "application/msgpack")]
    );
}

#[test]
fn server_paths() {
    assert_eq!(server_path(SERVER, "/power"), format!("{PREFIX}/power"));
    assert_eq!(
        server_item_path(SERVER, "backups", 1, "/restore"),
        format!("{PREFIX}/backups/00000000-0000-0000-0000-000000000001/restore")
    );
    assert_eq!(backup_path(2), "/api/backups/00000000-0000-0000-0000-000000000002");
    assert_eq!(transfer_path(SERVER), "/api/transfers/12345678-9abc-4def-8123-456789abcdef");
    assert_eq!(logs_path(SERVER, false, 100), format!("{PREFIX}/logs?lines=100"));
    assert_eq!(logs_path(SERVER, true, 5), format!("{PREFIX}/logs/install?lines=5"));
    assert_eq!(version_path(SERVER, "minecraft"), format!("{PREFIX}/version?game=minecraft"));
    assert_eq!(system_logs_file_path("wings.log", 20), "/api/system/logs/wings.log?lines=20");
}

#[test]
fn file_paths_are_encoded() {
    assert_eq!(
        files_contents_path(SERVER, "/a b/ü&x=1.txt", true, 1024),
        format!("{PREFIX}/files/contents?file=%2Fa%20b%2F%C3%BC%26x%3D1.txt&download=true&max_size=1024")
    );
    assert_eq!(
        files_list_directory_path(SERVER, "/plugins"),
        format!("{PREFIX}/files/list-directory?directory=%2Fplugins")
    );
    assert_eq!(files_write_path(SERVER, "a~b_c-d.e"), format!("{PREFIX}/files/write?file=a~b_c-d.e"));
    assert_eq!(
        files_fingerprints_path(SERVER, "sha256", &vec!["a.txt".to_string(), "b c".to_string()]),
        format!("{PREFIX}/files/fingerprints?algorithm=sha256&files=a.txt&files=b%20c")
    );
    assert_eq!(
        files_list_path(SERVER, "/", &vec!["*.env".to_string(), "logs/".to_string()], 50, 2, "name_asc"),
        format!("{PREFIX}/files/list?directory=%2F&ignored=%2A.env&ignored=logs%2F&per_page=50&page=2&sort=name_asc")
    );
    assert_eq!(
        files_list_path(SERVER, "", &vec![], 1, 1, "size_desc"),
        format!("{PREFIX}/files/list?directory=&ignored=&per_page=1&page=1&sort=size_desc")
    );
}

#[test]
fn request_bodies() {
    assert_eq!(request_body(Some(vec![0x81, 0xa1, 0x61, 0x01]), Some("ignored".to_string())), Some(vec![0x81, 0xa1, 0x61, 0x01]));
    assert_eq!(request_body(None, Some("é!".to_string())), Some(vec![0xc3, 0xa9, 0x21]));
    assert_eq!(request_body(None, None), None);
}

#[test]
fn daemon_answers() {
    assert_eq!(answer_outcome(200, Ok(5u8), Ok("unused".to_string())), Ok(5));
    assert_eq!(answer_outcome::<u8>(204, Err("bad shape".to_string()), Ok(String::new())), Err(WingsFailure::Decode("bad shape".to_string())));
    assert_eq!(
        answer_outcome::<u8>(404, Ok(1), Ok("server not found".to_string())),
        Err(WingsFailure::Http { status: 404, error: "server not found".to_string() })
    );
    assert_eq!(
        answer_outcome::<u8>(500, Ok(1), Err("unreadable body".to_string())),
        Err(WingsFailure::Http { status: 500, error: "unreadable body".to_string() })
    );
    assert_eq!(answer_outcome::<u8>(300, Ok(1), Ok("moved".to_string())), Err(WingsFailure::Http { status: 300, error: "moved".to_string() }));
}
