use system_tray::client::{name_acquired, Event, UpdateEvent};
use system_tray::data::TrayItemMap;
use system_tray::item::{Status, StatusNotifierItem};
use system_tray::menu::{MenuDiff, MenuItem, MenuItemUpdate, TrayMenu};
use system_tray::names::WATCHER_BUS;
use system_tray::value::DbusValue;

fn item(id: &str) -> StatusNotifierItem {
    let props = vec![("Id".to_string(), DbusValue::Str(id.to_string()))];
    StatusNotifierItem::from_props(&props).unwrap()
}

#[test]
fn add_update_remove_fold() {
    let mut store = TrayItemMap::new();
    store.apply_events(vec![
        Event::Add(":1.1".to_string(), Box::new(item("a"))),
        Event::Add(":1.2".to_string(), Box::new(item("b"))),
        Event::Update(":1.1".to_string(), UpdateEvent::Status(Status::Active)),
        Event::Update(":1.1".to_string(), UpdateEvent::Title(Some("A".to_string()))),
        Event::Update(":1.3".to_string(), UpdateEvent::Title(Some("ghost".to_string()))),
        Event::Remove(":1.2".to_string()),
    ]);
    assert!(store.contains(":1.1"));
    assert!(!store.contains(":1.2"));
    assert!(!store.contains(":1.3"));
    let entries = store.get_map();
    assert_eq!(entries.len(), 1);
    assert_eq!(entries[0].0, ":1.1");
    assert_eq!(entries[0].1.status, Status::Active);
    assert_eq!(entries[0].1.title.as_deref(), Some("A"));
    assert!(entries[0].2.is_none());
}

#[test]
fn disconnect_drops_item() {
    let mut store = TrayItemMap::new();
    store.apply_event(Event::Add(":1.9".to_string(), Box::new(item("foo"))));
    assert!(store.contains(":1.9"));
    store.apply_event(Event::Remove(":1.9".to_string()));
    assert!(!store.contains(":1.9"));
}

#[test]
fn readding_replaces_the_item() {
    let mut store = TrayItemMap::new();
    store.new_item(":1.4".to_string(), item("old"));
    store.new_item(":1.4".to_string(), item("new"));
    let entries = store.get_map();
    assert_eq!(entries.len(), 1);
    assert_eq!(entries[0].1.id, "new");
}

#[test]
fn icon_update_with_no_pixmaps_clears_them() {
    let mut store = TrayItemMap::new();
    store.new_item(":1.4".to_string(), item("x"));
    store.apply_update_event(":1.4", UpdateEvent::Icon { icon_name: Some("icon".to_string()), icon_pixmap: vec![] });
    let entries = store.get_map();
    assert_eq!(entries[0].1.icon_name.as_deref(), Some("icon"));
    assert!(entries[0].1.icon_pixmap.is_none());
}

#[test]
fn menu_updates_fold_into_cached_menu() {
    let mut store = TrayItemMap::new();
    store.new_item(":1.5".to_string(), item("x"));
    store.apply_update_event(":1.5", UpdateEvent::MenuConnect("/Menu".to_string()));
    store.update_menu(":1.5", TrayMenu { id: 1, submenus: vec![MenuItem::with_id(4)] });
    let mut update = MenuItemUpdate::empty();
    update.enabled = Some(false);
    store.apply_update_event(":1.5", UpdateEvent::MenuDiff(vec![MenuDiff { id: 4, update, remove: vec![] }]));
    let entries = store.get_map();
    assert_eq!(entries[0].1.menu.as_deref(), Some("/Menu"));
    let menu = entries[0].2.as_ref().unwrap();
    assert!(!menu.submenus[0].enabled);
}

#[test]
fn watcher_replacement_removes_every_item() {
    let mut store = TrayItemMap::new();
    store.new_item(":1.1".to_string(), item("a"));
    store.new_item(":1.2".to_string(), item("b"));
    let none = name_acquired(&mut store, "org.freedesktop.StatusNotifierHost-1-1");
    assert!(none.is_empty());
    assert!(store.contains(":1.1"));
    let events = name_acquired(&mut store, WATCHER_BUS);
    assert_eq!(events.len(), 2);
    let mut removed: Vec<String> = events
        .iter()
        .map(|e| match e {
            Event::Remove(a) => a.clone(),
            other => panic!("unexpected event {other:?}"),
        })
        .collect();
    removed.sort();
    assert_eq!(removed, vec![":1.1".to_string(), ":1.2".to_string()]);
    assert!(store.get_map().is_empty());
}

#[test]
fn clear_items_returns_addresses() {
    let mut store = TrayItemMap::new();
    store.new_item(":1.7".to_string(), item("a"));
    let cleared = store.clear_items();
    assert_eq!(cleared, vec![":1.7".to_string()]);
    assert!(!store.contains(":1.7"));
}
