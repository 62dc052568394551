use calagopus_panel::errors::ApiError;
use calagopus_panel::http::{
    avatar_etag, avatar_file_ok, content_security_policy, content_type_from, frontend_content_type, etag_plan, fallback_mime, is_not_modified, language_of,
    operation_id, operation_tag, plain_error_body, serves_from_storage, wings_proxy_target, wraps_plain_error,
};
use calagopus_panel::urls::is_url;

#[test]
fn error_bodies_are_json() {
    assert_eq!(ApiError::new_value(&["first", "second"]), r#"{"errors":["first","second"]}"#);
    assert_eq!(ApiError::new_value(&[]), r#"{"errors":[]}"#);
    assert_eq!(ApiError::new_wings_value("say \"hi\"\n"), r#"{"errors":["say \"hi\"\n"]}"#);
    assert_eq!(
        ApiError::new_strings_value(vec!["a\\b".to_string(), "\u{1}".to_string()]),
        r#"{"errors":["a\\b","\u0001"]}"#
    );
    let e = ApiError { errors: vec!["tab\there".to_string()] };
    assert_eq!(e.to_body(), r#"{"errors":["tab\there"]}"#);
}

#[test]
fn plain_client_errors_become_json() {
    assert!(wraps_plain_error(Some("text/plain; charset=utf-8"), 400));
    assert!(wraps_plain_error(Some("text/plain"), 499));
    assert!(!wraps_plain_error(Some("text/plain"), 404));
    assert!(!wraps_plain_error(Some("text/plain"), 500));
    assert!(!wraps_plain_error(Some("application/json"), 400));
    assert!(!wraps_plain_error(None, 400));
    assert_eq!(plain_error_body(b"bad input".to_vec()), Ok(r#"{"errors":["bad input"]}"#.to_string()));
    assert_eq!(plain_error_body(vec![0xff, 0xfe]), Err(vec![0xff, 0xfe]));
}

#[test]
fn entity_tags() {
    let plan = etag_plan(None, Some(Some("application/json".to_string())), b"hello");
    assert_eq!(
        plan.etag,
        Some("2cf24dba5fb0a30e26e83b2ac5b9e29e1b161e5c1fa7425e73043362938b9824".to_string())
    );
    assert!(plan.insert_header);
    let kept = etag_plan(Some(Some("\"v1\"".to_string())), Some(Some("application/json".to_string())), b"x");
    assert_eq!(kept.etag, Some("\"v1\"".to_string()));
    assert!(!kept.insert_header);
    let plain = etag_plan(None, Some(Some("text/plain".to_string())), b"x");
    assert_eq!(plain.etag, None);
    assert!(!plain.insert_header);
    let unreadable = etag_plan(None, Some(None), b"x");
    assert_eq!(unreadable.etag, None);
    assert!(is_not_modified(&Some("abc".to_string()), &Some("abc".to_string())));
    assert!(!is_not_modified(&Some("abc".to_string()), &Some("abd".to_string())));
    assert!(!is_not_modified(&None, &Some("abc".to_string())));
}

#[test]
fn avatar_files() {
    assert!(avatar_file_ok("12345678.webp"));
    assert!(!avatar_file_ok("1234567..webp"));
    assert!(!avatar_file_ok("123456789.png"));
    assert!(!avatar_file_ok("1234.webp"));
    assert_eq!(avatar_etag("12345678.webp"), "12345678");
    assert_eq!(avatar_etag("a.webp.webp"), "a");
    assert_eq!(avatar_etag("plain"), "plain");
}

#[test]
fn wings_proxy_addressing() {
    let r = wings_proxy_target("/wings-proxy/01234567-89ab-cdef-0123-456789abcdef/api/system");
    assert_eq!(r, Some((0x0123_4567_89ab_cdef_0123_4567_89ab_cdef, "api/system".to_string())));
    assert_eq!(wings_proxy_target("/wings-proxy/not-a-uuid/api"), None);
    assert_eq!(wings_proxy_target("/wings-proxy/01234567-89ab-cdef-0123-456789abcdef"), None);
    assert_eq!(wings_proxy_target("/api/client"), None);
}

#[test]
fn frontend_files() {
    assert_eq!(fallback_mime(Some("html")), "text/html");
    assert_eq!(fallback_mime(Some("js")), "application/javascript");
    assert_eq!(fallback_mime(Some("css")), "text/css");
    assert_eq!(fallback_mime(Some("json")), "application/json");
    assert_eq!(fallback_mime(Some("svg")), "image/svg+xml");
    assert_eq!(fallback_mime(Some("bin")), "application/octet-stream");
    assert_eq!(fallback_mime(None), "application/octet-stream");
    assert!(serves_from_storage(false, false, "assets/logo.png"));
    assert!(serves_from_storage(true, true, "assets/logo.png"));
    assert!(!serves_from_storage(true, false, "assets/logo.png"));
    assert!(!serves_from_storage(false, false, "index.html"));
    assert_eq!(language_of("en.json"), "en");
    assert_eq!(language_of("de"), "de");
}

#[test]
fn content_security_policy_text() {
    let csp = content_security_policy("https://s", "https://f", "https://c");
    assert_eq!(
        csp,
        "default-src 'self'; script-src 'self' blob: https://s; frame-src 'self' https://f; style-src 'self' 'unsafe-inline' https://c; connect-src *; font-src 'self' blob: data:; img-src * blob: data:; media-src 'self' blob: data:; object-src 'none' blob: data:; base-uri 'self'; form-action 'self'; frame-ancestors 'self';"
    );
}

#[test]
fn operation_names() {
    assert_eq!(operation_id("get", "/api/client/servers/{server}"), "get_api_client_servers_server");
    assert_eq!(operation_tag("/api/admin/nodes"), Some("/api/admin".to_string()));
    assert_eq!(operation_tag("/api/client/account"), Some("/api/client".to_string()));
    assert_eq!(operation_tag("/api/auth/login"), Some("/api/auth".to_string()));
    assert_eq!(operation_tag("/api/remote/servers"), Some("/api/remote".to_string()));
    assert_eq!(operation_tag("/avatars/x"), None);
}

#[test]
fn url_recognition() {
    assert!(is_url("https://example.com"));
    assert!(is_url("http://10.0.0.1:8080/path"));
    assert!(!is_url("not a url"));
    assert!(!is_url(""));
}

#[test]
fn frontend_content_types() {
    let png = [0x89, b'P', b'N', b'G', 0x0D, 0x0A, 0x1A, 0x0A, 0, 0, 0, 0x0D];
    assert_eq!(frontend_content_type(&png, "assets/logo.bin"), "image/png");
    assert_eq!(frontend_content_type(b"hello", "index.html"), "text/html");
    assert_eq!(frontend_content_type(b"hello", "assets/app.js"), "application/javascript");
    assert_eq!(frontend_content_type(b"hello", "assets/blob"), "application/octet-stream");
    assert_eq!(content_type_from(Some("image/webp"), "a.css"), "image/webp");
    assert_eq!(content_type_from(None, "a.css"), "text/css");
}
