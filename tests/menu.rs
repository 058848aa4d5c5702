use system_tray::data::apply_menu_diffs;
use system_tray::menu::{
    diffs_from_update, strip_label, Disposition, MenuDiff, MenuItem, MenuItemUpdate, MenuType,
    PropertiesUpdate, RemovedProps, ToggleState, ToggleType, TrayMenu, UpdatedProps,
};
use system_tray::error::Error;
use system_tray::value::DbusValue;

fn s(text: &str) -> DbusValue {
    DbusValue::Variant(Box::new(DbusValue::Str(text.to_string())))
}

fn key(text: &str) -> DbusValue {
    DbusValue::Str(text.to_string())
}

fn node(id: i32, props: Vec<(DbusValue, DbusValue)>, children: Vec<DbusValue>) -> DbusValue {
    DbusValue::Variant(Box::new(DbusValue::Structure(vec![
        DbusValue::I32(id),
        DbusValue::Dict(props),
        DbusValue::Array(children),
    ])))
}

#[test]
fn toggle_state_decode() {
    assert_eq!(ToggleState::from(0), ToggleState::Off);
    assert_eq!(ToggleState::from(1), ToggleState::On);
    assert_eq!(ToggleState::from(2), ToggleState::Indeterminate);
    assert_eq!(ToggleState::from(999), ToggleState::Indeterminate);
}

#[test]
fn enum_strings_decode() {
    assert_eq!(MenuType::from("separator"), MenuType::Separator);
    assert_eq!(MenuType::from("standard"), MenuType::Standard);
    assert_eq!(ToggleType::from("checkmark"), ToggleType::Checkmark);
    assert_eq!(ToggleType::from("radio"), ToggleType::Radio);
    assert_eq!(ToggleType::from(""), ToggleType::CannotBeToggled);
    assert_eq!(Disposition::from("informative"), Disposition::Informative);
    assert_eq!(Disposition::from("warning"), Disposition::Warning);
    assert_eq!(Disposition::from("alert"), Disposition::Alert);
    assert_eq!(Disposition::from("loud"), Disposition::Normal);
}

#[test]
fn mnemonic_stripping() {
    assert_eq!(strip_label("_File"), "File");
    assert_eq!(strip_label("Save __As"), "Save As");
    assert_eq!(strip_label(""), "");
}

#[test]
fn mnemonic_stripping_is_idempotent() {
    for label in ["_Quit", "a_b__c_", "plain", "___"] {
        let once = strip_label(label);
        let twice = strip_label(&once);
        assert_eq!(once, twice);
    }
}

#[test]
fn layout_decodes_nested_items() {
    let quit = node(
        2,
        vec![
            (key("label"), s("_Quit")),
            (key("enabled"), DbusValue::Variant(Box::new(DbusValue::Bool(false)))),
            (key("toggle-type"), s("checkmark")),
            (key("toggle-state"), DbusValue::Variant(Box::new(DbusValue::I32(0)))),
            (key("disposition"), s("alert")),
        ],
        vec![],
    );
    let sep = node(3, vec![(key("type"), s("separator"))], vec![]);
    let file = node(1, vec![(key("label"), s("_File")), (key("children-display"), s("submenu"))], vec![quit, sep]);
    let menu = TrayMenu::from_layout(7, &vec![file]).unwrap();
    assert_eq!(menu.id, 7);
    assert_eq!(menu.submenus.len(), 1);
    let file = &menu.submenus[0];
    assert_eq!(file.id, 1);
    assert_eq!(file.label.as_deref(), Some("File"));
    assert_eq!(file.children_display.as_deref(), Some("submenu"));
    assert!(file.enabled);
    assert!(file.visible);
    assert_eq!(file.submenu.len(), 2);
    let quit = &file.submenu[0];
    assert_eq!(quit.id, 2);
    assert_eq!(quit.label.as_deref(), Some("Quit"));
    assert!(!quit.enabled);
    assert_eq!(quit.toggle_type, ToggleType::Checkmark);
    assert_eq!(quit.toggle_state, ToggleState::Off);
    assert_eq!(quit.disposition, Disposition::Alert);
    assert_eq!(file.submenu[1].menu_type, MenuType::Separator);
    assert_eq!(file.submenu[1].toggle_state, ToggleState::On);
}

#[test]
fn layout_node_of_wrong_type_is_an_error() {
    let err = TrayMenu::from_layout(1, &vec![DbusValue::I32(5)]).unwrap_err();
    assert_eq!(err, Error::IncorrectType);
}

#[test]
fn layout_property_of_wrong_type_is_an_error() {
    let bad = node(4, vec![(key("label"), DbusValue::I32(1))], vec![]);
    let err = TrayMenu::from_layout(1, &vec![bad]).unwrap_err();
    assert_eq!(err, Error::IncorrectType);
}

#[test]
fn layout_icon_data_reads_bytes() {
    let icon = node(
        5,
        vec![(key("icon-data"), DbusValue::Variant(Box::new(DbusValue::Array(vec![DbusValue::U8(137), DbusValue::U8(80)]))))],
        vec![],
    );
    let menu = TrayMenu::from_layout(1, &vec![icon]).unwrap();
    assert_eq!(menu.submenus[0].icon_data.as_deref(), Some(&[137u8, 80u8][..]));
}

fn merge_payload() -> PropertiesUpdate {
    PropertiesUpdate {
        updated: vec![
            UpdatedProps { id: 7, fields: vec![("enabled".to_string(), DbusValue::Bool(false))] },
            UpdatedProps { id: 9, fields: vec![("label".to_string(), DbusValue::Str("Quit".to_string()))] },
        ],
        removed: vec![RemovedProps { id: 7, fields: vec!["icon-name".to_string()] }],
    }
}

#[test]
fn menu_diff_merge() {
    let diffs = diffs_from_update(&merge_payload()).unwrap();
    assert_eq!(diffs.len(), 2);
    let seven: Vec<&MenuDiff> = diffs.iter().filter(|d| d.id == 7).collect();
    assert_eq!(seven.len(), 1);
    assert_eq!(seven[0].update.enabled, Some(false));
    assert_eq!(seven[0].remove, vec!["icon-name".to_string()]);
    let nine: Vec<&MenuDiff> = diffs.iter().filter(|d| d.id == 9).collect();
    assert_eq!(nine.len(), 1);
    assert_eq!(nine[0].update.label, Some(Some("Quit".to_string())));
    assert!(nine[0].remove.is_empty());
}

#[test]
fn duplicate_ids_merge_into_one_diff() {
    let payload = PropertiesUpdate {
        updated: vec![
            UpdatedProps { id: 3, fields: vec![("visible".to_string(), DbusValue::Bool(false))] },
            UpdatedProps { id: 3, fields: vec![("visible".to_string(), DbusValue::Bool(true))] },
        ],
        removed: vec![
            RemovedProps { id: 3, fields: vec!["label".to_string()] },
            RemovedProps { id: 4, fields: vec!["icon-name".to_string()] },
        ],
    };
    let diffs = diffs_from_update(&payload).unwrap();
    assert_eq!(diffs.len(), 2);
    let three = diffs.iter().find(|d| d.id == 3).unwrap();
    assert_eq!(three.update.visible, Some(true));
    assert_eq!(three.remove, vec!["label".to_string()]);
    let four = diffs.iter().find(|d| d.id == 4).unwrap();
    assert_eq!(four.update.visible, None);
    assert_eq!(four.remove, vec!["icon-name".to_string()]);
}

#[test]
fn update_with_bad_icon_data_is_an_error() {
    let payload = PropertiesUpdate {
        updated: vec![UpdatedProps { id: 1, fields: vec![("icon-data".to_string(), DbusValue::Str("png".to_string()))] }],
        removed: vec![],
    };
    assert_eq!(diffs_from_update(&payload).unwrap_err(), Error::IncorrectType);
}

#[test]
fn update_reads_each_property() {
    let fields = vec![
        ("label".to_string(), DbusValue::Str("_Open".to_string())),
        ("icon-name".to_string(), DbusValue::I32(2)),
        ("toggle-state".to_string(), DbusValue::I32(1)),
        ("disposition".to_string(), DbusValue::Str("warning".to_string())),
        ("enabled".to_string(), DbusValue::Str("yes".to_string())),
    ];
    let u = MenuItemUpdate::from_props(&fields).unwrap();
    assert_eq!(u.label, Some(Some("Open".to_string())));
    assert_eq!(u.icon_name, Some(None));
    assert_eq!(u.toggle_state, Some(ToggleState::On));
    assert_eq!(u.disposition, Some(Disposition::Warning));
    assert_eq!(u.enabled, None);
    assert_eq!(u.visible, None);
    assert!(u.icon_data.is_none());
}

#[test]
fn diffs_patch_matching_children() {
    let mut menu = TrayMenu { id: 1, submenus: vec![MenuItem::with_id(7), MenuItem::with_id(8), MenuItem::with_id(9)] };
    let diffs = diffs_from_update(&merge_payload()).unwrap();
    apply_menu_diffs(&mut menu, &diffs);
    assert!(!menu.submenus[0].enabled);
    assert!(menu.submenus[1].enabled);
    assert!(menu.submenus[1].label.is_none());
    assert_eq!(menu.submenus[2].label.as_deref(), Some("Quit"));
    assert!(menu.submenus[2].enabled);
}

#[test]
fn later_diffs_win() {
    let mut menu = TrayMenu { id: 1, submenus: vec![MenuItem::with_id(5)] };
    let mut first = MenuItemUpdate::empty();
    first.label = Some(Some("one".to_string()));
    first.visible = Some(false);
    let mut second = MenuItemUpdate::empty();
    second.label = Some(None);
    second.icon_data = Some(Some(vec![1, 2]));
    let diffs = vec![
        MenuDiff { id: 5, update: first, remove: vec![] },
        MenuDiff { id: 6, update: MenuItemUpdate::empty(), remove: vec![] },
        MenuDiff { id: 5, update: second, remove: vec![] },
    ];
    apply_menu_diffs(&mut menu, &diffs);
    assert!(menu.submenus[0].label.is_none());
    assert!(!menu.submenus[0].visible);
    assert_eq!(menu.submenus[0].icon_data, Some(vec![1, 2]));
}
