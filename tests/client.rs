use system_tray::client::{
    parse_address, property_for_signal, update_event_for, Event, ItemInput, ItemPhase, ItemTracker,
    MenuInput, MenuPhase, MenuTracker, UpdateEvent,
};
use system_tray::error::Error;
use system_tray::item::{Category, Status, StatusNotifierItem};
use system_tray::menu::TrayMenu;
use system_tray::value::DbusValue;

fn item_with_id(id: &str) -> StatusNotifierItem {
    let props = vec![("Id".to_string(), DbusValue::Variant(Box::new(DbusValue::Str(id.to_string()))))];
    StatusNotifierItem::from_props(&props).unwrap()
}

#[test]
fn parse_unnamed() {
    let address = ":1.58/StatusNotifierItem";
    let (destination, path) = parse_address(address);

    assert_eq!(":1.58", destination);
    assert_eq!("/StatusNotifierItem", path);
}

#[test]
fn parse_named() {
    let address = ":1.72/org/ayatana/NotificationItem/dropbox_client_1398";
    let (destination, path) = parse_address(address);

    assert_eq!(":1.72", destination);
    assert_eq!("/org/ayatana/NotificationItem/dropbox_client_1398", path);
}

#[test]
fn parse_bare_bus_name() {
    let (destination, path) = parse_address(":1.9");
    assert_eq!(":1.9", destination);
    assert_eq!("/StatusNotifierItem", path);
}

#[test]
fn parse_splits_at_first_slash_only() {
    let (destination, path) = parse_address("org.example/a/b");
    assert_eq!("org.example", destination);
    assert_eq!("/a/b", path);
}

#[test]
fn minimal_item_add() {
    let mut tracker = ItemTracker::new(":1.20".to_string());
    let step = tracker.step(ItemInput::Fetched(Ok(item_with_id("foo"))));
    assert_eq!(step.events.len(), 1);
    match &step.events[0] {
        Event::Add(address, item) => {
            assert_eq!(address, ":1.20");
            assert_eq!(item.id, "foo");
            assert_eq!(item.category, Category::ApplicationStatus);
            assert_eq!(item.status, Status::Unknown);
            assert_eq!(item.window_id, 0);
            assert!(!item.item_is_menu);
            assert!(item.title.is_none());
            assert!(item.icon_name.is_none());
            assert!(item.icon_pixmap.is_none());
            assert!(item.tool_tip.is_none());
            assert!(item.menu.is_none());
        }
        other => panic!("unexpected event {other:?}"),
    }
    assert!(step.watch_menu.is_none());
    assert_eq!(tracker.current_phase(), ItemPhase::Active);
}

#[test]
fn failed_fetch_emits_nothing() {
    let mut tracker = ItemTracker::new(":1.21".to_string());
    let step = tracker.step(ItemInput::Fetched(Err(Error::MissingProperty("Id"))));
    assert!(step.events.is_empty());
    assert_eq!(tracker.current_phase(), ItemPhase::Removed);
    let later = tracker.step(ItemInput::Ended);
    assert!(later.events.is_empty());
}

#[test]
fn item_with_menu_connects_it() {
    let props = vec![
        ("Id".to_string(), DbusValue::Str("foo".to_string())),
        ("Menu".to_string(), DbusValue::ObjectPath("/MenuBar".to_string())),
    ];
    let item = StatusNotifierItem::from_props(&props).unwrap();
    let mut tracker = ItemTracker::new(":1.22".to_string());
    let step = tracker.step(ItemInput::Fetched(Ok(item)));
    assert_eq!(step.events.len(), 2);
    assert!(matches!(&step.events[0], Event::Add(a, _) if a == ":1.22"));
    assert!(matches!(&step.events[1], Event::Update(a, UpdateEvent::MenuConnect(p)) if a == ":1.22" && p == "/MenuBar"));
    assert_eq!(step.watch_menu.as_deref(), Some("/MenuBar"));
}

#[test]
fn status_update() {
    let mut tracker = ItemTracker::new(":1.30".to_string());
    tracker.step(ItemInput::Fetched(Ok(item_with_id("foo"))));
    assert_eq!(property_for_signal("NewStatus").as_deref(), Some("Status"));
    let value = DbusValue::Variant(Box::new(DbusValue::Str("NeedsAttention".to_string())));
    let update = update_event_for("NewStatus", &value, None).unwrap().unwrap();
    let step = tracker.step(ItemInput::Changed(update));
    assert_eq!(step.events.len(), 1);
    assert!(matches!(&step.events[0], Event::Update(a, UpdateEvent::Status(Status::NeedsAttention)) if a == ":1.30"));
}

#[test]
fn status_of_wrong_type_is_an_error() {
    let value = DbusValue::U32(3);
    assert_eq!(update_event_for("NewStatus", &value, None).unwrap_err(), Error::IncorrectType);
}

#[test]
fn signal_properties() {
    assert_eq!(property_for_signal("NewAttentionIcon").as_deref(), Some("AttentionIconName"));
    assert_eq!(property_for_signal("NewIcon").as_deref(), Some("IconName"));
    assert_eq!(property_for_signal("NewOverlayIcon").as_deref(), Some("OverlayIconName"));
    assert_eq!(property_for_signal("NewTitle").as_deref(), Some("Title"));
    assert_eq!(property_for_signal("NewToolTip").as_deref(), Some("ToolTip"));
    assert_eq!(property_for_signal("NewIconThemePath").as_deref(), Some("IconThemePath"));
    assert_eq!(property_for_signal("Other"), None);
}

#[test]
fn unknown_signal_carries_no_update() {
    let value = DbusValue::Str("x".to_string());
    assert!(update_event_for("NewIconThemePath", &value, None).unwrap().is_none());
}

#[test]
fn title_of_wrong_type_is_nothing() {
    let value = DbusValue::I32(4);
    let update = update_event_for("NewTitle", &value, None).unwrap().unwrap();
    assert!(matches!(update, UpdateEvent::Title(None)));
}

#[test]
fn icon_update_reads_name_and_pixmaps() {
    let name = DbusValue::Str("firefox".to_string());
    let pixmap = DbusValue::Structure(vec![
        DbusValue::I32(2),
        DbusValue::I32(1),
        DbusValue::Array(vec![DbusValue::U8(1), DbusValue::U8(2), DbusValue::U8(3), DbusValue::U8(4)]),
    ]);
    let pixmaps = DbusValue::Array(vec![pixmap]);
    let update = update_event_for("NewIcon", &name, Some(&pixmaps)).unwrap().unwrap();
    match update {
        UpdateEvent::Icon { icon_name, icon_pixmap } => {
            assert_eq!(icon_name.as_deref(), Some("firefox"));
            assert_eq!(icon_pixmap.len(), 1);
            assert_eq!(icon_pixmap[0].width, 2);
            assert_eq!(icon_pixmap[0].height, 1);
            assert_eq!(icon_pixmap[0].pixels, vec![1, 2, 3, 4]);
        }
        other => panic!("unexpected update {other:?}"),
    }
}

#[test]
fn disconnect_removes_once() {
    let mut tracker = ItemTracker::new(":1.40".to_string());
    tracker.step(ItemInput::Fetched(Ok(item_with_id("foo"))));
    let other = tracker.step(ItemInput::OwnerChanged {
        old_owner: Some(":1.41".to_string()),
        new_owner: None,
    });
    assert!(other.events.is_empty());
    let step = tracker.step(ItemInput::OwnerChanged {
        old_owner: Some(":1.40".to_string()),
        new_owner: None,
    });
    assert_eq!(step.events.len(), 1);
    assert!(matches!(&step.events[0], Event::Remove(a) if a == ":1.40"));
    assert!(step.unregister);
    let after = tracker.step(ItemInput::Changed(UpdateEvent::Title(None)));
    assert!(after.events.is_empty());
    let again = tracker.step(ItemInput::Ended);
    assert!(again.events.is_empty());
}

#[test]
fn lifecycle_of_a_sequence() {
    let mut tracker = ItemTracker::new(":1.50".to_string());
    let mut events = Vec::new();
    events.extend(tracker.step(ItemInput::Changed(UpdateEvent::Title(None))).events);
    events.extend(tracker.step(ItemInput::Fetched(Ok(item_with_id("a")))).events);
    events.extend(tracker.step(ItemInput::Fetched(Ok(item_with_id("b")))).events);
    events.extend(tracker.step(ItemInput::Changed(UpdateEvent::Title(Some("t".to_string())))).events);
    events.extend(tracker.step(ItemInput::Ended).events);
    events.extend(tracker.step(ItemInput::Changed(UpdateEvent::Title(None))).events);
    assert_eq!(events.len(), 3);
    assert!(matches!(&events[0], Event::Add(..)));
    assert!(matches!(&events[1], Event::Update(..)));
    assert!(matches!(&events[2], Event::Remove(..)));
}

#[test]
fn menu_tracker_follows_layout() {
    let mut tracker = MenuTracker::new();
    let first = tracker.step(MenuInput::Layout(Ok(TrayMenu { id: 3, submenus: vec![] })));
    assert!(matches!(first.update, Some(UpdateEvent::Menu(TrayMenu { id: 3, .. }))));
    assert_eq!(tracker.current_phase(), MenuPhase::Tracking);
    let refresh = tracker.step(MenuInput::LayoutUpdated);
    assert!(refresh.fetch_layout);
    assert!(refresh.update.is_none());
    let diffs = tracker.step(MenuInput::PropertiesUpdated(Ok(vec![])));
    assert!(matches!(diffs.update, Some(UpdateEvent::MenuDiff(_))));
}

#[test]
fn layout_timeout_stops_menu_tracker_quietly() {
    let mut tracker = MenuTracker::new();
    tracker.step(MenuInput::Layout(Ok(TrayMenu { id: 1, submenus: vec![] })));
    tracker.step(MenuInput::LayoutUpdated);
    let step = tracker.step(MenuInput::LayoutFailed);
    assert!(step.update.is_none());
    assert!(!step.fetch_layout);
    assert_eq!(tracker.current_phase(), MenuPhase::Stopped);
    let later = tracker.step(MenuInput::Layout(Ok(TrayMenu { id: 2, submenus: vec![] })));
    assert!(later.update.is_none());
}
