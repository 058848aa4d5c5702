use system_tray::error::Error;
use system_tray::item::{Category, IconPixmap, Status, StatusNotifierItem, Tooltip};
use system_tray::value::DbusValue;

fn v(value: DbusValue) -> DbusValue {
    DbusValue::Variant(Box::new(value))
}

fn text(s: &str) -> DbusValue {
    DbusValue::Str(s.to_string())
}

fn pixmap(w: i32, h: i32, bytes: &[u8]) -> DbusValue {
    DbusValue::Structure(vec![
        DbusValue::I32(w),
        DbusValue::I32(h),
        DbusValue::Array(bytes.iter().map(|b| DbusValue::U8(*b)).collect()),
    ])
}

#[test]
fn missing_id_is_an_error() {
    let props = vec![("Title".to_string(), v(text("t")))];
    assert_eq!(StatusNotifierItem::from_props(&props).unwrap_err(), Error::MissingProperty("Id"));
}

#[test]
fn id_of_wrong_type_is_an_error() {
    let props = vec![("Id".to_string(), v(DbusValue::U32(1)))];
    assert_eq!(StatusNotifierItem::from_props(&props).unwrap_err(), Error::IncorrectType);
}

#[test]
fn full_item_decodes() {
    let props = vec![
        ("Id".to_string(), v(text("app"))),
        ("Category".to_string(), v(text("Hardware"))),
        ("Title".to_string(), v(text("App"))),
        ("Status".to_string(), v(text("Passive"))),
        ("WindowId".to_string(), v(DbusValue::I32(-1))),
        ("IconName".to_string(), v(text("app-icon"))),
        ("IconPixmap".to_string(), v(DbusValue::Array(vec![pixmap(1, 2, &[9, 8])]))),
        ("ToolTip".to_string(), v(DbusValue::Structure(vec![text("tip-icon"), DbusValue::Array(vec![]), text("Tip"), text("Details")]))),
        ("ItemIsMenu".to_string(), v(DbusValue::Bool(true))),
        ("Menu".to_string(), v(DbusValue::ObjectPath("/MenuBar".to_string()))),
    ];
    let item = StatusNotifierItem::from_props(&props).unwrap();
    assert_eq!(item.id, "app");
    assert_eq!(item.category, Category::Hardware);
    assert_eq!(item.title.as_deref(), Some("App"));
    assert_eq!(item.status, Status::Passive);
    assert_eq!(item.window_id, u32::MAX);
    assert_eq!(item.icon_name.as_deref(), Some("app-icon"));
    let pixmaps = item.icon_pixmap.unwrap();
    assert_eq!(pixmaps.len(), 1);
    assert_eq!((pixmaps[0].width, pixmaps[0].height), (1, 2));
    assert_eq!(pixmaps[0].pixels, vec![9, 8]);
    let tip = item.tool_tip.unwrap();
    assert_eq!(tip.icon_name, "tip-icon");
    assert_eq!(tip.title, "Tip");
    assert_eq!(tip.description, "Details");
    assert!(tip.icon_data.is_empty());
    assert!(item.item_is_menu);
    assert_eq!(item.menu.as_deref(), Some("/MenuBar"));
    assert!(item.overlay_icon_name.is_none());
}

#[test]
fn unknown_enum_strings_fall_back() {
    assert_eq!(Category::from("Games"), Category::ApplicationStatus);
    assert_eq!(Category::from("Communications"), Category::Communications);
    assert_eq!(Category::from("SystemServices"), Category::SystemServices);
    assert_eq!(Status::from("Sleeping"), Status::Unknown);
    assert_eq!(Status::from("Active"), Status::Active);
    assert_eq!(Status::from("NeedsAttention"), Status::NeedsAttention);
}

#[test]
fn short_tooltip_is_invalid_data() {
    let fields = vec![text("icon")];
    assert_eq!(Tooltip::from_fields(&fields).unwrap_err(), Error::InvalidData("icon_data"));
}

#[test]
fn pixmap_without_pixels_is_invalid_data() {
    let value = DbusValue::Structure(vec![DbusValue::I32(1), DbusValue::I32(1)]);
    assert_eq!(IconPixmap::from_value(&value).unwrap_err(), Error::InvalidData("invalid or missing pixel values"));
}

#[test]
fn pixmap_reads_height_from_second_field() {
    let value = pixmap(16, 32, &[0, 0, 0, 0]);
    let p = IconPixmap::from_value(&value).unwrap();
    assert_eq!(p.width, 16);
    assert_eq!(p.height, 32);
}

#[test]
fn bad_pixmap_in_array_is_an_error() {
    let array = vec![pixmap(1, 1, &[1]), DbusValue::Str("nope".to_string())];
    assert_eq!(IconPixmap::from_array(&array).unwrap_err(), Error::IncorrectType);
}
