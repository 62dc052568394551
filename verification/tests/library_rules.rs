use calagopus_panel::extensions::{
    check_extension_management, check_rebuild, extension_changes, is_extension_archive, versions_equal,
    ExtensionPermissionsBuilder, ExtensionRouteBuilder, ExtensionSummary, ExtensionVersion,
};
use calagopus_panel::models::{pagination_offset, set_if, Pagination};
use calagopus_panel::ordered_map::{group, OrderedMap};
use calagopus_panel::routes::{group_eggs_by_nest, order_by_created, Params};
use calagopus_panel::text_map::text_map_collect;
use calagopus_panel::validation::{bytes_at_most, note, opt2_text_within, opt_text_within, text_within};
use calagopus_panel::version::{full_version, likely, unlikely, AppContainerType};

fn version(major: u64, minor: u64, patch: u64) -> ExtensionVersion {
    ExtensionVersion { major, minor, patch, pre: String::new(), build: String::new() }
}

fn ext(name: &str, v: ExtensionVersion) -> ExtensionSummary {
    ExtensionSummary { package_name: name.to_string(), version: v }
}

#[test]
fn ordered_map_insert_and_lookup() {
    let mut m: OrderedMap<u32> = OrderedMap::new();
    m.insert("b".to_string(), 1);
    m.insert("a".to_string(), 2);
    m.insert("b".to_string(), 3);
    assert_eq!(m.len(), 2);
    assert_eq!(m.entries, vec![("b".to_string(), 3), ("a".to_string(), 2)]);
    assert_eq!(m.index_of(&"a".to_string()), Some(1));
    assert_eq!(m.index_of(&"c".to_string()), None);
    let c = OrderedMap::collect(vec![("x".to_string(), 1), ("y".to_string(), 2), ("x".to_string(), 9)]);
    assert_eq!(c.entries, vec![("x".to_string(), 9), ("y".to_string(), 2)]);
    let g = group(vec![("p".to_string(), 1), ("q".to_string(), 2), ("p".to_string(), 3)]);
    assert_eq!(g.entries, vec![("p".to_string(), vec![1, 3]), ("q".to_string(), vec![2])]);
}

#[test]
fn grouping_and_ordering_eggs() {
    let groups = group_eggs_by_nest(&vec![5, 3, 5, 9, 3]);
    assert_eq!(groups, vec![(3, vec![1, 4]), (5, vec![0, 2]), (9, vec![3])]);
    assert!(group_eggs_by_nest(&vec![]).is_empty());
    let order = order_by_created(&vec![30, 10, 20, 10]);
    let created = [30, 10, 20, 10];
    let mut sorted = order.clone();
    sorted.sort();
    assert_eq!(sorted, vec![0, 1, 2, 3]);
    for w in order.windows(2) {
        assert!(created[w[0]] <= created[w[1]]);
    }
}

#[test]
fn listing_parameters() {
    let ok = Params { page: 1, per_page: 100, directory: "/".to_string(), sort: "name_asc".to_string() };
    assert!(ok.validate().is_empty());
    let bad = Params { page: 0, per_page: 101, directory: "/".to_string(), sort: "name_asc".to_string() };
    assert_eq!(bad.validate(), vec!["page", "per_page"]);
}

#[test]
fn extension_changes_for_a_build() {
    let local = vec![ext("a", version(1, 0, 0)), ext("b", version(2, 0, 0)), ext("c", version(1, 0, 0))];
    let applied = vec![ext("a", version(1, 0, 0)), ext("b", version(1, 5, 0)), ext("d", version(3, 0, 0))];
    let changes = extension_changes(&local, &applied);
    assert_eq!(changes.pending, vec![1, 2]);
    assert_eq!(changes.removed, vec![1, 2]);
    // Once the applied extensions are the local ones, nothing is left to do.
    let settled = extension_changes(&local, &local);
    assert!(settled.pending.is_empty());
    assert!(settled.removed.is_empty());
    let mut pre = version(1, 0, 0);
    pre.pre = "beta".to_string();
    assert!(!versions_equal(&pre, &version(1, 0, 0)));
    assert!(versions_equal(&version(1, 2, 3), &version(1, 2, 3)));
}

#[test]
fn extension_management_rules() {
    assert_eq!(check_extension_management(AppContainerType::OfficialHeavy), Ok(()));
    let refused = check_extension_management(AppContainerType::Official).unwrap_err();
    assert_eq!(refused.status, 501);
    assert_eq!(refused.message, "extension management is only available in the official heavy container");
    assert!(check_extension_management(AppContainerType::NoContainer).is_err());
    assert!(is_extension_archive(true, "/extensions/theme.c7s.zip"));
    assert!(!is_extension_archive(false, "/extensions/theme.c7s.zip"));
    assert!(!is_extension_archive(true, "/extensions/readme.md"));
    assert_eq!(check_rebuild(false), Ok(()));
    let busy = check_rebuild(true).unwrap_err();
    assert_eq!((busy.status, busy.message.as_str()), (409, "extension rebuild is already in progress"));
}

#[test]
fn build_version_and_container() {
    assert_eq!(full_version("1.2.3", "abc123", "main"), "1.2.3:abc123@main");
    assert_eq!(full_version("1.2.3", "abc123", "unknown"), "1.2.3");
    assert_eq!(AppContainerType::from_setting(Some("official")), AppContainerType::Official);
    assert_eq!(AppContainerType::from_setting(Some("official-heavy")), AppContainerType::OfficialHeavy);
    assert_eq!(AppContainerType::from_setting(Some("other")), AppContainerType::Unknown);
    assert_eq!(AppContainerType::from_setting(None), AppContainerType::NoContainer);
    assert_eq!(AppContainerType::OfficialHeavy.as_str(), "official_heavy");
    assert_eq!(AppContainerType::NoContainer.as_str(), "none");
    assert!(likely(true) && !likely(false));
    assert!(unlikely(true) && !unlikely(false));
}

#[test]
fn field_limits() {
    assert!(text_within("abc", 1, 3));
    assert!(!text_within("abcd", 1, 3));
    assert!(text_within("äöü", 3, 3));
    assert!(opt_text_within(&None, 1, 3));
    assert!(!opt_text_within(&Some(String::new()), 1, 3));
    assert!(opt2_text_within(&Some(None), 1, 3));
    assert!(!opt2_text_within(&Some(Some("abcd".to_string())), 1, 3));
    assert!(bytes_at_most("ä", 2));
    assert!(!bytes_at_most("ä", 1));
    let mut errors = Vec::new();
    note(&mut errors, true, "name");
    note(&mut errors, false, "image");
    assert_eq!(errors, vec!["image"]);
}

#[test]
fn pages_and_updates() {
    assert_eq!(pagination_offset(1, 50), 0);
    assert_eq!(pagination_offset(3, 25), 50);
    let p = Pagination::from_rows(Some(120), 50, 2, vec![1, 2, 3]);
    assert_eq!((p.total, p.per_page, p.page, p.data), (120, 50, 2, vec![1, 2, 3]));
    let empty: Pagination<u8> = Pagination::from_rows(None, 50, 9, vec![]);
    assert_eq!(empty.total, 0);
    let mut slot = 1;
    set_if(&mut slot, None);
    assert_eq!(slot, 1);
    set_if(&mut slot, Some(5));
    assert_eq!(slot, 5);
}

#[test]
fn extension_permission_groups() {
    let b: ExtensionPermissionsBuilder<Vec<&str>> =
        ExtensionPermissionsBuilder::new(OrderedMap::new(), OrderedMap::new(), OrderedMap::new());
    let b = b
        .add_user_permission_group("tickets", vec!["tickets.read"])
        .add_admin_permission_group("tickets", vec!["tickets.manage"])
        .add_server_permission_group("backups", vec!["backups.read"])
        .add_server_permission_group("backups", vec!["backups.read", "backups.create"]);
    assert_eq!(b.user_permissions.entries, vec![("tickets".to_string(), vec!["tickets.read"])]);
    assert_eq!(b.admin_permissions.entries, vec![("tickets".to_string(), vec!["tickets.manage"])]);
    assert_eq!(b.server_permissions.entries, vec![("backups".to_string(), vec!["backups.read", "backups.create"])]);
}

#[test]
fn text_maps_keep_first_places() {
    let m = text_map_collect(vec![
        ("a".to_string(), "1".to_string()),
        ("b".to_string(), "2".to_string()),
        ("a".to_string(), "3".to_string()),
    ]);
    let pairs: Vec<(String, String)> = m.into_iter().collect();
    assert_eq!(pairs, vec![("a".to_string(), "3".to_string()), ("b".to_string(), "2".to_string())]);
    assert!(text_map_collect(vec![]).is_empty());
}

#[test]
fn extension_routers_build_on_each_other() {
    let b: ExtensionRouteBuilder<Vec<String>> = ExtensionRouteBuilder::new();
    let b = b.add_admin_api_router(vec!["state".to_string()], |mut r| {
        r.push("/stats".to_string());
        r
    });
    let b = b.add_admin_api_router(vec!["state".to_string()], |mut r| {
        r.push("/reports".to_string());
        r
    });
    assert_eq!(b.api_admin, Some(vec!["state".to_string(), "/stats".to_string(), "/reports".to_string()]));
    assert_eq!(b.global, None);
    let b = b.add_remote_server_api_router(vec!["state".to_string()], |mut r| {
        r.push("/sync".to_string());
        r
    });
    assert_eq!(b.api_remote_servers_server, Some(vec!["state".to_string(), "/sync".to_string()]));
    assert_eq!(b.api_client, None);
}
