use system_tray::client::parse_address;
use system_tray::names::host_name;
use system_tray::error::Error;
use system_tray::watcher::{item_key, owned_by, parse_service, HostRegistration, ServiceName, StatusNotifierWatcher};

#[test]
fn path_only_registration_uses_sender() {
    let parsed = parse_service("/only/path", Some(":1.5".to_string())).unwrap();
    assert_eq!(parsed, ServiceName::Unique(":1.5".to_string(), "/only/path".to_string()));
}

#[test]
fn path_only_registration_without_sender_is_rejected() {
    assert!(matches!(parse_service("/only/path", None), Err(Error::InvalidArgs(_))));
}

#[test]
fn unique_name_registration() {
    let parsed = parse_service(":1.42", None).unwrap();
    assert_eq!(parsed, ServiceName::Unique(":1.42".to_string(), "/StatusNotifierItem".to_string()));
}

#[test]
fn well_known_name_resolves_to_owner() {
    let parsed = parse_service("org.kde.StatusNotifierItem-77-1", None).unwrap();
    assert_eq!(parsed, ServiceName::WellKnown("org.kde.StatusNotifierItem-77-1".to_string()));
    let (name, path) = owned_by(":1.77".to_string());
    assert_eq!(name, ":1.77");
    assert_eq!(path, "/StatusNotifierItem");
}

#[test]
fn invalid_name_is_rejected() {
    assert!(matches!(parse_service("not a bus name", None), Err(Error::InvalidArgs(_))));
    assert!(matches!(parse_service("", None), Err(Error::InvalidArgs(_))));
}

#[test]
fn repeated_item_registration_is_a_no_op() {
    let mut watcher = StatusNotifierWatcher::new();
    let (name, path) = owned_by(":1.77".to_string());
    let key = item_key(&name, &path);
    assert!(watcher.register_status_notifier_item(key.clone()));
    assert!(!watcher.register_status_notifier_item(key.clone()));
    assert_eq!(watcher.registered_status_notifier_items(), vec![key.clone()]);
    assert!(watcher.unregister_status_notifier_item(&key));
    assert!(watcher.registered_status_notifier_items().is_empty());
    assert!(!watcher.unregister_status_notifier_item(&key));
}

#[test]
fn item_key_round_trips_through_address_parsing() {
    let key = item_key(":1.5", "/org/ayatana/NotificationItem/app");
    assert_eq!(key, ":1.5/org/ayatana/NotificationItem/app");
    let (destination, path) = parse_address(&key);
    assert_eq!(destination, ":1.5");
    assert_eq!(path, "/org/ayatana/NotificationItem/app");
}

#[test]
fn three_shapes_give_one_key() {
    let from_path = parse_service("/StatusNotifierItem", Some(":1.8".to_string())).unwrap();
    let from_unique = parse_service(":1.8", None).unwrap();
    assert_eq!(from_path, from_unique);
    let (owner, path) = owned_by(":1.8".to_string());
    assert_eq!(ServiceName::Unique(owner, path), from_unique);
}

#[test]
fn hosts_register_and_leave() {
    let mut watcher = StatusNotifierWatcher::new();
    assert!(!watcher.is_status_notifier_host_registered());
    assert_eq!(watcher.register_status_notifier_host(":1.1".to_string()), HostRegistration::Added { first: true });
    assert_eq!(watcher.register_status_notifier_host(":1.1".to_string()), HostRegistration::AlreadyKnown);
    assert_eq!(watcher.register_status_notifier_host(":1.2".to_string()), HostRegistration::Added { first: false });
    assert!(watcher.is_status_notifier_host_registered());
    assert!(!watcher.remove_status_notifier_host(":1.1"));
    assert!(watcher.remove_status_notifier_host(":1.2"));
    assert!(!watcher.is_status_notifier_host_registered());
    assert!(!watcher.remove_status_notifier_host(":1.2"));
    assert_eq!(watcher.protocol_version(), 0);
}

#[test]
fn host_names_number_attempts() {
    assert_eq!(host_name(4242, 1), "org.freedesktop.StatusNotifierHost-4242-1");
    assert_eq!(host_name(0, 10), "org.freedesktop.StatusNotifierHost-0-10");
    assert_eq!(host_name(u32::MAX, 305), "org.freedesktop.StatusNotifierHost-4294967295-305");
}
