//! `DBusMenu` menu representation.
use crate::error::Error;
use crate::item::opt_text;
use crate::text::{chars_of, str_eq, string_from_chars};
use crate::value::{
    bool_field, bytes_of, dict_get, dict_lookup, i32_field, prop_get, prop_lookup, read_bool, read_bytes,
    read_i32, read_str, str_field, unwrap_variant, unwrapped, DbusValue,
};
use vstd::prelude::*;

verus! {

/// A menu that should be displayed when clicking the corresponding tray icon.
#[derive(Debug, Clone)]
pub struct TrayMenu {
    /// The unique identifier of the menu (the layout revision).
    pub id: u32,
    /// A recursive list of submenus.
    pub submenus: Vec<MenuItem>,
}

/// One entry of a menu, with the properties of the `com.canonical.dbusmenu`
/// interface.
#[derive(Debug)]
pub struct MenuItem {
    /// Unique numeric id.
    pub id: i32,
    /// Either a standard menu item or a separator.
    pub menu_type: MenuType,
    /// Text of the item, with its mnemonic underscores removed.
    pub label: Option<String>,
    /// Whether the item can be activated or not.
    pub enabled: bool,
    /// True if the item is visible in the menu.
    pub visible: bool,
    /// Icon name of the item, following the freedesktop.org icon spec.
    pub icon_name: Option<String>,
    /// PNG data of the icon.
    pub icon_data: Option<Vec<u8>>,
    /// The shortcut of the item: one list of modifiers and key per key press.
    pub shortcut: Option<Vec<Vec<String>>>,
    /// How a toggle of the item is presented.
    pub toggle_type: ToggleType,
    /// The current state of a togglable item.
    pub toggle_state: ToggleState,
    /// `"submenu"` when the item has children.
    pub children_display: Option<String>,
    /// How the information the item displays should be presented.
    pub disposition: Disposition,
    /// Nested submenu items belonging to this item.
    pub submenu: Vec<MenuItem>,
}

/// The changed properties of one menu item.
#[derive(Debug, Clone)]
pub struct MenuDiff {
    /// The id of the item the diff applies to.
    pub id: i32,
    /// The properties that were set.
    pub update: MenuItemUpdate,
    /// The names of the properties that were removed.
    pub remove: Vec<String>,
}

/// Properties of a menu item that changed. `None` means unchanged; for the
/// nullable properties `Some(None)` means set to nothing.
#[derive(Debug, Clone)]
pub struct MenuItemUpdate {
    /// New label, mnemonic underscores removed.
    pub label: Option<Option<String>>,
    /// New enabled flag.
    pub enabled: Option<bool>,
    /// New visibility.
    pub visible: Option<bool>,
    /// New icon name.
    pub icon_name: Option<Option<String>>,
    /// New PNG icon data.
    pub icon_data: Option<Option<Vec<u8>>>,
    /// New toggle state.
    pub toggle_state: Option<ToggleState>,
    /// New disposition.
    pub disposition: Option<Disposition>,
}

impl MenuItem {
    /// An item with the given id and every property at its default.
    pub fn with_id(id: i32) -> (r: MenuItem)
        ensures
            r.id == id,
            r.menu_type == MenuType::Standard,
            r.label is None,
            r.enabled,
            r.visible,
            r.icon_name is None,
            r.icon_data is None,
            r.shortcut is None,
            r.toggle_type == ToggleType::CannotBeToggled,
            r.toggle_state == ToggleState::On,
            r.children_display is None,
            r.disposition == Disposition::Normal,
            r.submenu@.len() == 0,
    {
        MenuItem {
            id,
            menu_type: MenuType::Standard,
            label: None,
            enabled: true,
            visible: true,
            icon_name: None,
            icon_data: None,
            shortcut: None,
            toggle_type: ToggleType::CannotBeToggled,
            toggle_state: ToggleState::On,
            children_display: None,
            disposition: Disposition::Normal,
            submenu: Vec::new(),
        }
    }
}

impl Clone for MenuItem {
    fn clone(&self) -> (r: MenuItem)
        ensures
            r.id == self.id,
            r.submenu@.len() == self.submenu@.len(),
        decreases self,
    {
        let mut submenu: Vec<MenuItem> = Vec::new();
        let mut i: usize = 0;
        while i < self.submenu.len()
            invariant
                i <= self.submenu@.len(),
                submenu@.len() == i,
            decreases self.submenu@.len() - i,
        {
            proof {
                vstd::std_specs::vec::axiom_vec_index_decreases(self.submenu, i as int);
            }
            submenu.push(self.submenu[i].clone());
            i = i + 1;
        }
        MenuItem {
            id: self.id,
            menu_type: self.menu_type,
            label: self.label.clone(),
            enabled: self.enabled,
            visible: self.visible,
            icon_name: self.icon_name.clone(),
            icon_data: self.icon_data.clone(),
            shortcut: self.shortcut.clone(),
            toggle_type: self.toggle_type,
            toggle_state: self.toggle_state,
            children_display: self.children_display.clone(),
            disposition: self.disposition,
            submenu,
        }
    }
}

impl Default for MenuItem {
    fn default() -> (r: MenuItem)
        ensures
            r.id == 0,
            r.enabled,
            r.visible,
    {
        MenuItem::with_id(0)
    }
}

impl MenuItemUpdate {
    /// An update that changes nothing.
    pub fn empty() -> (r: MenuItemUpdate)
        ensures
            r.is_empty(),
    {
        MenuItemUpdate {
            label: None,
            enabled: None,
            visible: None,
            icon_name: None,
            icon_data: None,
            toggle_state: None,
            disposition: None,
        }
    }

    /// Whether the update changes no property.
    pub open spec fn is_empty(self) -> bool {
        &&& self.label is None
        &&& self.enabled is None
        &&& self.visible is None
        &&& self.icon_name is None
        &&& self.icon_data is None
        &&& self.toggle_state is None
        &&& self.disposition is None
    }
}

impl Default for MenuItemUpdate {
    fn default() -> (r: MenuItemUpdate)
        ensures
            r.is_empty(),
    {
        MenuItemUpdate::empty()
    }
}

impl Default for MenuDiff {
    fn default() -> (r: MenuDiff)
        ensures
            r.id == 0,
            r.update.is_empty(),
            r.remove@.len() == 0,
    {
        MenuDiff { id: 0, update: MenuItemUpdate::empty(), remove: Vec::new() }
    }
}

/// The kind of a menu item.
#[derive(Debug, Copy, Clone, PartialEq, Eq, Structural)]
pub enum MenuType {
    /// A separator.
    Separator,
    /// An item which can be clicked to trigger an action or show another menu.
    Standard,
}

/// The `type` property value that names a separator.
pub open spec fn menu_type_of(s: Seq<char>) -> MenuType {
    if s == "separator"@ {
        MenuType::Separator
    } else {
        MenuType::Standard
    }
}

impl Default for MenuType {
    fn default() -> (r: MenuType)
        ensures
            r == MenuType::Standard,
    {
        MenuType::Standard
    }
}

impl<'a> From<&'a str> for MenuType {
    fn from(value: &'a str) -> (r: MenuType)
        ensures
            r == menu_type_of(value@),
    {
        if str_eq(value, "separator") {
            MenuType::Separator
        } else {
            MenuType::Standard
        }
    }
}

impl<'a> vstd::std_specs::convert::FromSpecImpl<&'a str> for MenuType {
    open spec fn obeys_from_spec() -> bool {
        true
    }

    open spec fn from_spec(v: &'a str) -> MenuType {
        menu_type_of(v@)
    }
}

/// How a toggle of the item is presented.
#[derive(Debug, Copy, Clone, PartialEq, Eq, Structural)]
pub enum ToggleType {
    /// An independent togglable item.
    Checkmark,
    /// Part of a group where only one item can be toggled at a time.
    Radio,
    /// The item cannot be toggled.
    CannotBeToggled,
}

/// The toggle type that a `toggle-type` property value names.
pub open spec fn toggle_type_of(s: Seq<char>) -> ToggleType {
    if s == "checkmark"@ {
        ToggleType::Checkmark
    } else if s == "radio"@ {
        ToggleType::Radio
    } else {
        ToggleType::CannotBeToggled
    }
}

impl Default for ToggleType {
    fn default() -> (r: ToggleType)
        ensures
            r == ToggleType::CannotBeToggled,
    {
        ToggleType::CannotBeToggled
    }
}

impl<'a> From<&'a str> for ToggleType {
    fn from(value: &'a str) -> (r: ToggleType)
        ensures
            r == toggle_type_of(value@),
    {
        if str_eq(value, "checkmark") {
            ToggleType::Checkmark
        } else if str_eq(value, "radio") {
            ToggleType::Radio
        } else {
            ToggleType::CannotBeToggled
        }
    }
}

impl<'a> vstd::std_specs::convert::FromSpecImpl<&'a str> for ToggleType {
    open spec fn obeys_from_spec() -> bool {
        true
    }

    open spec fn from_spec(v: &'a str) -> ToggleType {
        toggle_type_of(v@)
    }
}

/// The current state of a togglable item.
#[derive(Debug, Copy, Clone, PartialEq, Eq, Structural)]
pub enum ToggleState {
    /// The item is toggled.
    On,
    /// The item is not toggled.
    Off,
    /// The state is neither on nor off.
    Indeterminate,
}

/// The toggle state that a `toggle-state` integer names.
pub open spec fn toggle_state_of(n: i32) -> ToggleState {
    if n == 0 {
        ToggleState::Off
    } else if n == 1 {
        ToggleState::On
    } else {
        ToggleState::Indeterminate
    }
}

impl Default for ToggleState {
    fn default() -> (r: ToggleState)
        ensures
            r == ToggleState::On,
    {
        ToggleState::On
    }
}

impl From<i32> for ToggleState {
    fn from(value: i32) -> (r: ToggleState)
        ensures
            r == toggle_state_of(value),
    {
        if value == 0 {
            ToggleState::Off
        } else if value == 1 {
            ToggleState::On
        } else {
            ToggleState::Indeterminate
        }
    }
}

impl vstd::std_specs::convert::FromSpecImpl<i32> for ToggleState {
    open spec fn obeys_from_spec() -> bool {
        true
    }

    open spec fn from_spec(v: i32) -> ToggleState {
        toggle_state_of(v)
    }
}

/// How the information an item displays should be presented.
#[derive(Debug, Copy, Clone, PartialEq, Eq, Structural)]
pub enum Disposition {
    /// A standard menu item.
    Normal,
    /// Additional information for the user.
    Informative,
    /// Potentially harmful results.
    Warning,
    /// Something bad could happen.
    Alert,
}

/// The disposition that a `disposition` property value names.
pub open spec fn disposition_of(s: Seq<char>) -> Disposition {
    if s == "informative"@ {
        Disposition::Informative
    } else if s == "warning"@ {
        Disposition::Warning
    } else if s == "alert"@ {
        Disposition::Alert
    } else {
        Disposition::Normal
    }
}

impl Default for Disposition {
    fn default() -> (r: Disposition)
        ensures
            r == Disposition::Normal,
    {
        Disposition::Normal
    }
}

impl<'a> From<&'a str> for Disposition {
    fn from(value: &'a str) -> (r: Disposition)
        ensures
            r == disposition_of(value@),
    {
        if str_eq(value, "informative") {
            Disposition::Informative
        } else if str_eq(value, "warning") {
            Disposition::Warning
        } else if str_eq(value, "alert") {
            Disposition::Alert
        } else {
            Disposition::Normal
        }
    }
}

impl<'a> vstd::std_specs::convert::FromSpecImpl<&'a str> for Disposition {
    open spec fn obeys_from_spec() -> bool {
        true
    }

    open spec fn from_spec(v: &'a str) -> Disposition {
        disposition_of(v@)
    }
}

/// A label with every underscore removed: the mnemonic markers (`_x`) and
/// escaped underscores (`__`) of `DBusMenu` labels are not displayed.
pub open spec fn strip_mnemonic(s: Seq<char>) -> Seq<char>
    decreases s.len(),
{
    if s.len() == 0 {
        s
    } else {
        let rest = strip_mnemonic(s.drop_last());
        if s.last() == '_' {
            rest
        } else {
            rest.push(s.last())
        }
    }
}

/// Stripping a label that is already stripped leaves it unchanged.
pub proof fn lemma_strip_mnemonic_idempotent(s: Seq<char>)
    ensures
        strip_mnemonic(strip_mnemonic(s)) == strip_mnemonic(s),
    decreases s.len(),
{
    if s.len() > 0 {
        let rest = strip_mnemonic(s.drop_last());
        lemma_strip_mnemonic_idempotent(s.drop_last());
        if s.last() != '_' {
            assert(rest.push(s.last()).drop_last() == rest);
        }
    }
}

/// Removes the mnemonic underscores from a menu label.
pub fn strip_label(label: &str) -> (r: String)
    ensures
        r@ == strip_mnemonic(label@),
{
    let cs = chars_of(label);
    let mut out: Vec<char> = Vec::new();
    let mut i: usize = 0;
    while i < cs.len()
        invariant
            cs@ == label@,
            i <= cs@.len(),
            out@ == strip_mnemonic(cs@.subrange(0, i as int)),
        decreases cs@.len() - i,
    {
        assert(cs@.subrange(0, i + 1).drop_last() == cs@.subrange(0, i as int));
        if cs[i] != '_' {
            out.push(cs[i]);
        }
        i = i + 1;
    }
    assert(cs@.subrange(0, cs@.len() as int) == cs@);
    string_from_chars(&out)
}

/// The first error among `errors`, if any.
pub open spec fn first_error(errors: Seq<Option<Error>>) -> Option<Error>
    decreases errors.len(),
{
    if errors.len() == 0 {
        None
    } else if errors[0] is Some {
        errors[0]
    } else {
        first_error(errors.drop_first())
    }
}

proof fn lemma_first_error(errors: Seq<Option<Error>>, i: int)
    requires
        0 <= i <= errors.len(),
        forall|k: int| 0 <= k < i ==> #[trigger] errors[k] is None,
    ensures
        i < errors.len() ==> (errors[i] is Some ==> first_error(errors) == errors[i]),
        i == errors.len() ==> first_error(errors) is None,
    decreases i,
{
    if i > 0 {
        lemma_first_error(errors.drop_first(), i - 1);
    }
}

/// The error, if any, met while reading the properties of a layout node,
/// in the order `children-display`, `label`, `enabled`, `visible`,
/// `icon-name`, `icon-data`. The other properties fall back to their
/// defaults when they have the wrong type.
pub open spec fn properties_error(entries: Seq<(DbusValue, DbusValue)>) -> Option<Error> {
    if str_field(dict_lookup(entries, "children-display"@)) is Err {
        Some(str_field(dict_lookup(entries, "children-display"@))->Err_0)
    } else if str_field(dict_lookup(entries, "label"@)) is Err {
        Some(str_field(dict_lookup(entries, "label"@))->Err_0)
    } else if bool_field(dict_lookup(entries, "enabled"@)) is Err {
        Some(bool_field(dict_lookup(entries, "enabled"@))->Err_0)
    } else if bool_field(dict_lookup(entries, "visible"@)) is Err {
        Some(bool_field(dict_lookup(entries, "visible"@))->Err_0)
    } else if str_field(dict_lookup(entries, "icon-name"@)) is Err {
        Some(str_field(dict_lookup(entries, "icon-name"@))->Err_0)
    } else {
        match icon_data_field(dict_lookup(entries, "icon-data"@)) {
            Err(e) => Some(e),
            Ok(_) => None,
        }
    }
}

/// Reading the optional `icon-data` property: an array of bytes.
pub open spec fn icon_data_field(o: Option<DbusValue>) -> Result<Option<Seq<u8>>, Error> {
    match o {
        None => Ok(None),
        Some(v) => match unwrapped(v) {
            DbusValue::Array(a) => match bytes_of(a@) {
                Ok(b) => Ok(Some(b)),
                Err(e) => Err(e),
            },
            _ => Err(Error::IncorrectType),
        },
    }
}

/// The bytes of optional icon data.
pub open spec fn opt_bytes(o: Option<Vec<u8>>) -> Option<Seq<u8>> {
    match o {
        Some(b) => Some(b@),
        None => None,
    }
}

/// The label read from the properties: its underscores stripped.
pub open spec fn label_of(o: Option<String>) -> Option<Seq<char>> {
    match o {
        Some(s) => Some(strip_mnemonic(s@)),
        None => None,
    }
}

/// `m` carries what the layout properties `entries` say, each property at
/// its default where it is absent (or, for `disposition`, `toggle-state`,
/// `toggle-type` and `type`, of the wrong type).
pub open spec fn properties_read(entries: Seq<(DbusValue, DbusValue)>, m: MenuItem) -> bool {
    &&& m.children_display == str_field(dict_lookup(entries, "children-display"@))->Ok_0
    &&& opt_text(m.label) == label_of(str_field(dict_lookup(entries, "label"@))->Ok_0)
    &&& m.enabled == match bool_field(dict_lookup(entries, "enabled"@))->Ok_0 {
        Some(b) => b,
        None => true,
    }
    &&& m.visible == match bool_field(dict_lookup(entries, "visible"@))->Ok_0 {
        Some(b) => b,
        None => true,
    }
    &&& m.icon_name == str_field(dict_lookup(entries, "icon-name"@))->Ok_0
    &&& opt_bytes(m.icon_data) == icon_data_field(dict_lookup(entries, "icon-data"@))->Ok_0
    &&& m.disposition == match str_field(dict_lookup(entries, "disposition"@)) {
        Ok(Some(s)) => disposition_of(s@),
        _ => Disposition::Normal,
    }
    &&& m.toggle_state == match i32_field(dict_lookup(entries, "toggle-state"@)) {
        Ok(Some(n)) => toggle_state_of(n),
        _ => ToggleState::On,
    }
    &&& m.toggle_type == match str_field(dict_lookup(entries, "toggle-type"@)) {
        Ok(Some(s)) => toggle_type_of(s@),
        _ => ToggleType::CannotBeToggled,
    }
    &&& m.menu_type == match str_field(dict_lookup(entries, "type"@)) {
        Ok(Some(s)) => menu_type_of(s@),
        _ => MenuType::Standard,
    }
}

/// `m` has every property at its default.
pub open spec fn default_properties(m: MenuItem) -> bool {
    &&& m.children_display is None
    &&& m.label is None
    &&& m.enabled
    &&& m.visible
    &&& m.icon_name is None
    &&& m.icon_data is None
    &&& m.disposition == Disposition::Normal
    &&& m.toggle_state == ToggleState::On
    &&& m.toggle_type == ToggleType::CannotBeToggled
    &&& m.menu_type == MenuType::Standard
}

/// The error, if any, met while reading a layout node `(ia{sv}av)`: a node
/// that is not a structure is of the wrong type; then its properties are
/// read, then its children in order.
pub open spec fn menu_item_error(v: DbusValue) -> Option<Error>
    decreases v,
{
    match v {
        DbusValue::Variant(inner) => match *inner {
            DbusValue::Structure(fields) => node_error(fields),
            _ => Some(Error::IncorrectType),
        },
        DbusValue::Structure(fields) => node_error(fields),
        _ => Some(Error::IncorrectType),
    }
}

/// The error, if any, met while reading the fields of a layout node.
pub open spec fn node_error(fields: Vec<DbusValue>) -> Option<Error>
    decreases fields,
{
    let own = if fields@.len() > 1 {
        match fields@[1] {
            DbusValue::Dict(entries) => properties_error(entries@),
            _ => None,
        }
    } else {
        None
    };
    if own is Some {
        own
    } else if fields@.len() > 2 {
        match fields@[2] {
            DbusValue::Array(children) => first_error(children_errors(children)),
            _ => None,
        }
    } else {
        None
    }
}

/// The errors met while reading each of `children`.
pub open spec fn children_errors(children: Vec<DbusValue>) -> Seq<Option<Error>>
    decreases children,
{
    Seq::new(
        children@.len(),
        |i: int|
            if 0 <= i < children@.len() {
                menu_item_error(children@[i])
            } else {
                None
            },
    )
}

/// `m` is what the layout node `v` reads as, when it reads without error.
pub open spec fn menu_item_read(v: DbusValue, m: MenuItem) -> bool
    decreases v,
{
    match v {
        DbusValue::Variant(inner) => match *inner {
            DbusValue::Structure(fields) => node_read(fields, m),
            _ => false,
        },
        DbusValue::Structure(fields) => node_read(fields, m),
        _ => false,
    }
}

/// `m` is what a layout node with `fields` reads as: the id from an `i32`
/// first field (else 0), the properties from a dictionary second field
/// (else defaults), the children from an array third field (else none), and
/// no shortcut.
pub open spec fn node_read(fields: Vec<DbusValue>, m: MenuItem) -> bool
    decreases fields,
{
    &&& m.id == (if fields@.len() > 0 && fields@[0] is I32 {
        fields@[0]->I32_0
    } else {
        0
    })
    &&& m.shortcut is None
    &&& if fields@.len() > 1 && fields@[1] is Dict {
        properties_read(fields@[1]->Dict_0@, m)
    } else {
        default_properties(m)
    }
    &&& if fields@.len() > 2 && fields@[2] is Array {
        &&& m.submenu@.len() == fields@[2]->Array_0@.len()
        &&& forall|i: int|
            0 <= i < m.submenu@.len() ==> menu_item_read(
                #[trigger] fields@[2]->Array_0@[i],
                m.submenu@[i],
            )
    } else {
        m.submenu@.len() == 0
    }
}

impl MenuItem {
    /// Reads the properties dictionary of a layout node into an item with
    /// id `id` and no children.
    fn from_properties(id: i32, entries: &Vec<(DbusValue, DbusValue)>) -> (r: Result<MenuItem, Error>)
        ensures
            match r {
                Ok(m) => {
                    &&& properties_error(entries@) is None
                    &&& properties_read(entries@, m)
                    &&& m.id == id
                    &&& m.shortcut is None
                    &&& m.submenu@.len() == 0
                },
                Err(e) => properties_error(entries@) == Some(e),
            },
    {
        let children_display = read_str(dict_get(entries, "children-display"))?;
        let label = match read_str(dict_get(entries, "label"))? {
            Some(l) => Some(strip_label(l.as_str())),
            None => None,
        };
        let enabled = match read_bool(dict_get(entries, "enabled"))? {
            Some(b) => b,
            None => true,
        };
        let visible = match read_bool(dict_get(entries, "visible"))? {
            Some(b) => b,
            None => true,
        };
        let icon_name = read_str(dict_get(entries, "icon-name"))?;
        let icon_data = match dict_get(entries, "icon-data") {
            None => None,
            Some(v) => match unwrap_variant(v) {
                DbusValue::Array(a) => Some(read_bytes(a)?),
                _ => return Err(Error::IncorrectType),
            },
        };
        let disposition = match read_str(dict_get(entries, "disposition")) {
            Ok(Some(s)) => Disposition::from(s.as_str()),
            _ => Disposition::Normal,
        };
        let toggle_state = match read_i32(dict_get(entries, "toggle-state")) {
            Ok(Some(n)) => ToggleState::from(n),
            _ => ToggleState::On,
        };
        let toggle_type = match read_str(dict_get(entries, "toggle-type")) {
            Ok(Some(s)) => ToggleType::from(s.as_str()),
            _ => ToggleType::CannotBeToggled,
        };
        let menu_type = match read_str(dict_get(entries, "type")) {
            Ok(Some(s)) => MenuType::from(s.as_str()),
            _ => MenuType::Standard,
        };
        Ok(
            MenuItem {
                id,
                menu_type,
                label,
                enabled,
                visible,
                icon_name,
                icon_data,
                shortcut: None,
                toggle_type,
                toggle_state,
                children_display,
                disposition,
                submenu: Vec::new(),
            },
        )
    }

    /// Reads a layout node `(ia{sv}av)`, possibly wrapped in a variant, with
    /// all its children.
    pub fn from_value(v: &DbusValue) -> (r: Result<MenuItem, Error>)
        ensures
            match r {
                Ok(m) => menu_item_error(*v) is None && menu_item_read(*v, m),
                Err(e) => menu_item_error(*v) == Some(e),
            },
        decreases v,
    {
        match v {
            DbusValue::Variant(inner) => match &**inner {
                DbusValue::Structure(fields) => MenuItem::from_fields(fields),
                _ => Err(Error::IncorrectType),
            },
            DbusValue::Structure(fields) => MenuItem::from_fields(fields),
            _ => Err(Error::IncorrectType),
        }
    }

    /// Reads the fields of a layout node.
    fn from_fields(fields: &Vec<DbusValue>) -> (r: Result<MenuItem, Error>)
        ensures
            match r {
                Ok(m) => node_error(*fields) is None && node_read(*fields, m),
                Err(e) => node_error(*fields) == Some(e),
            },
        decreases fields,
    {
        let mut id: i32 = 0;
        if fields.len() > 0 {
            if let DbusValue::I32(n) = &fields[0] {
                id = *n;
            }
        }
        let mut item = if fields.len() > 1 {
            match &fields[1] {
                DbusValue::Dict(entries) => MenuItem::from_properties(id, entries)?,
                _ => MenuItem::with_id(id),
            }
        } else {
            MenuItem::with_id(id)
        };
        if fields.len() > 2 {
            if let DbusValue::Array(children) = &fields[2] {
                let ghost errors = children_errors(*children);
                let mut submenu: Vec<MenuItem> = Vec::new();
                let mut i: usize = 0;
                while i < children.len()
                    invariant
                        fields@.len() > 2,
                        fields@[2] == DbusValue::Array(*children),
                        fields@[1] is Dict ==> properties_error(fields@[1]->Dict_0@) is None,
                        errors == children_errors(*children),
                        i <= children@.len(),
                        submenu@.len() == i,
                        forall|k: int| 0 <= k < i ==> #[trigger] errors[k] is None,
                        forall|k: int|
                            0 <= k < i ==> menu_item_read(#[trigger] children@[k], submenu@[k]),
                    decreases children@.len() - i,
                {
                    proof {
                        vstd::std_specs::vec::axiom_vec_index_decreases(*fields, 2);
                        vstd::std_specs::vec::axiom_vec_index_decreases(*children, i as int);
                    }
                    match MenuItem::from_value(&children[i]) {
                        Ok(child) => {
                            submenu.push(child);
                        },
                        Err(e) => {
                            proof {
                                lemma_first_error(errors, i as int);
                            }
                            return Err(e);
                        },
                    }
                    i = i + 1;
                }
                proof {
                    lemma_first_error(errors, i as int);
                }
                item.submenu = submenu;
            }
        }
        Ok(item)
    }
}

impl TrayMenu {
    /// Reads a menu from a `GetLayout` reply: the layout revision and the
    /// children of the root node.
    pub fn from_layout(revision: u32, submenus: &Vec<DbusValue>) -> (r: Result<TrayMenu, Error>)
        ensures
            match r {
                Ok(menu) => {
                    &&& menu.id == revision
                    &&& menu.submenus@.len() == submenus@.len()
                    &&& forall|k: int| 0 <= k < submenus@.len() ==> menu_item_error(#[trigger] submenus@[k]) is None
                    &&& forall|k: int|
                        0 <= k < submenus@.len() ==> menu_item_read(#[trigger] submenus@[k], menu.submenus@[k])
                },
                Err(e) => first_error(children_errors(*submenus)) == Some(e),
            },
    {
        let ghost errors = children_errors(*submenus);
        let mut items: Vec<MenuItem> = Vec::new();
        let mut i: usize = 0;
        while i < submenus.len()
            invariant
                errors == children_errors(*submenus),
                i <= submenus@.len(),
                items@.len() == i,
                forall|k: int| 0 <= k < i ==> #[trigger] errors[k] is None,
                forall|k: int| 0 <= k < i ==> menu_item_read(#[trigger] submenus@[k], items@[k]),
            decreases submenus@.len() - i,
        {
            match MenuItem::from_value(&submenus[i]) {
                Ok(item) => {
                    items.push(item);
                },
                Err(e) => {
                    proof {
                        lemma_first_error(errors, i as int);
                    }
                    return Err(e);
                },
            }
            i = i + 1;
        }
        assert forall|k: int| 0 <= k < submenus@.len() implies menu_item_error(#[trigger] submenus@[k]) is None by {
            assert(errors[k] is None);
        }
        Ok(TrayMenu { id: revision, submenus: items })
    }
}

/// The properties of one menu item that an `ItemsPropertiesUpdated` signal
/// sets.
#[derive(Debug)]
pub struct UpdatedProps {
    /// The id of the item.
    pub id: i32,
    /// Property names and their new values.
    pub fields: Vec<(String, DbusValue)>,
}

/// The properties of one menu item that an `ItemsPropertiesUpdated` signal
/// removes.
#[derive(Debug)]
pub struct RemovedProps {
    /// The id of the item.
    pub id: i32,
    /// The names of the removed properties.
    pub fields: Vec<String>,
}

/// The payload of an `ItemsPropertiesUpdated` signal.
#[derive(Debug)]
pub struct PropertiesUpdate {
    /// Set properties, per item.
    pub updated: Vec<UpdatedProps>,
    /// Removed properties, per item.
    pub removed: Vec<RemovedProps>,
}

/// An update seen through the views of its fields.
pub struct UpdateView {
    pub label: Option<Option<Seq<char>>>,
    pub enabled: Option<bool>,
    pub visible: Option<bool>,
    pub icon_name: Option<Option<Seq<char>>>,
    pub icon_data: Option<Option<Seq<u8>>>,
    pub toggle_state: Option<ToggleState>,
    pub disposition: Option<Disposition>,
}

/// The characters of an optional string, in an option.
pub open spec fn opt_opt_text(o: Option<Option<String>>) -> Option<Option<Seq<char>>> {
    match o {
        Some(inner) => Some(opt_text(inner)),
        None => None,
    }
}

impl View for MenuItemUpdate {
    type V = UpdateView;

    open spec fn view(&self) -> UpdateView {
        UpdateView {
            label: opt_opt_text(self.label),
            enabled: self.enabled,
            visible: self.visible,
            icon_name: opt_opt_text(self.icon_name),
            icon_data: match self.icon_data {
                Some(inner) => Some(opt_bytes(inner)),
                None => None,
            },
            toggle_state: self.toggle_state,
            disposition: self.disposition,
        }
    }
}

/// The view of the update that changes nothing.
pub open spec fn empty_update_view() -> UpdateView {
    UpdateView {
        label: None,
        enabled: None,
        visible: None,
        icon_name: None,
        icon_data: None,
        toggle_state: None,
        disposition: None,
    }
}

/// Reading the set properties of an item: an absent property stays
/// unchanged; `label` and `icon-name` of another type than a string are set
/// to nothing; `enabled`, `visible`, `toggle-state` and `disposition` of the
/// wrong type stay unchanged; `icon-data` of the wrong type is an error.
pub open spec fn update_of(fields: Seq<(String, DbusValue)>) -> Result<UpdateView, Error> {
    let icon_data: Result<Option<Option<Seq<u8>>>, Error> = match prop_lookup(fields, "icon-data"@) {
        None => Ok(None),
        Some(v) => match unwrapped(v) {
            DbusValue::Array(a) => match bytes_of(a@) {
                Ok(b) => Ok(Some(Some(b))),
                Err(e) => Err(e),
            },
            _ => Err(Error::IncorrectType),
        },
    };
    match icon_data {
        Err(e) => Err(e),
        Ok(icon_data) => Ok(
            UpdateView {
                label: match prop_lookup(fields, "label"@) {
                    None => None,
                    Some(v) => match unwrapped(v) {
                        DbusValue::Str(s) => Some(Some(strip_mnemonic(s@))),
                        _ => Some(None),
                    },
                },
                enabled: match prop_lookup(fields, "enabled"@) {
                    Some(v) => match unwrapped(v) {
                        DbusValue::Bool(b) => Some(b),
                        _ => None,
                    },
                    None => None,
                },
                visible: match prop_lookup(fields, "visible"@) {
                    Some(v) => match unwrapped(v) {
                        DbusValue::Bool(b) => Some(b),
                        _ => None,
                    },
                    None => None,
                },
                icon_name: match prop_lookup(fields, "icon-name"@) {
                    None => None,
                    Some(v) => match unwrapped(v) {
                        DbusValue::Str(s) => Some(Some(s@)),
                        _ => Some(None),
                    },
                },
                icon_data,
                toggle_state: match prop_lookup(fields, "toggle-state"@) {
                    Some(v) => match unwrapped(v) {
                        DbusValue::I32(n) => Some(toggle_state_of(n)),
                        _ => None,
                    },
                    None => None,
                },
                disposition: match prop_lookup(fields, "disposition"@) {
                    Some(v) => match unwrapped(v) {
                        DbusValue::Str(s) => Some(disposition_of(s@)),
                        _ => None,
                    },
                    None => None,
                },
            },
        ),
    }
}

/// Reads a property that is set to a string, or to nothing.
fn read_nullable_text(o: Option<&DbusValue>, strip: bool) -> (r: Option<Option<String>>)
    ensures
        match o {
            None => r is None,
            Some(v) => match unwrapped(*v) {
                DbusValue::Str(s) => r is Some && r->0 is Some && r->0->0@ == (if strip {
                    strip_mnemonic(s@)
                } else {
                    s@
                }),
                _ => r == Some(None::<String>),
            },
        },
{
    match o {
        None => None,
        Some(v) => match unwrap_variant(v) {
            DbusValue::Str(s) => if strip {
                Some(Some(strip_label(s.as_str())))
            } else {
                Some(Some(s.clone()))
            },
            _ => Some(None),
        },
    }
}

impl MenuItemUpdate {
    /// Reads the set properties of an item from an `ItemsPropertiesUpdated`
    /// signal.
    pub fn from_props(fields: &Vec<(String, DbusValue)>) -> (r: Result<MenuItemUpdate, Error>)
        ensures
            match r {
                Ok(u) => update_of(fields@) == Ok::<UpdateView, Error>(u@),
                Err(e) => update_of(fields@) == Err::<UpdateView, Error>(e),
            },
    {
        let icon_data = match prop_get(fields, "icon-data") {
            None => None,
            Some(v) => match unwrap_variant(v) {
                DbusValue::Array(a) => match read_bytes(a) {
                    Ok(b) => Some(Some(b)),
                    Err(e) => return Err(e),
                },
                _ => return Err(Error::IncorrectType),
            },
        };
        let label = read_nullable_text(prop_get(fields, "label"), true);
        let icon_name = read_nullable_text(prop_get(fields, "icon-name"), false);
        let enabled = match prop_get(fields, "enabled") {
            Some(v) => match unwrap_variant(v) {
                DbusValue::Bool(b) => Some(*b),
                _ => None,
            },
            None => None,
        };
        let visible = match prop_get(fields, "visible") {
            Some(v) => match unwrap_variant(v) {
                DbusValue::Bool(b) => Some(*b),
                _ => None,
            },
            None => None,
        };
        let toggle_state = match prop_get(fields, "toggle-state") {
            Some(v) => match unwrap_variant(v) {
                DbusValue::I32(n) => Some(ToggleState::from(*n)),
                _ => None,
            },
            None => None,
        };
        let disposition = match prop_get(fields, "disposition") {
            Some(v) => match unwrap_variant(v) {
                DbusValue::Str(s) => Some(Disposition::from(s.as_str())),
                _ => None,
            },
            None => None,
        };
        let r = MenuItemUpdate { label, enabled, visible, icon_name, icon_data, toggle_state, disposition };
        assert(r@ == update_of(fields@)->Ok_0);
        Ok(r)
    }
}

/// The last index in `updated` of an entry for `id`.
pub open spec fn last_updated(updated: Seq<UpdatedProps>, id: i32) -> Option<int>
    decreases updated.len(),
{
    if updated.len() == 0 {
        None
    } else if updated.last().id == id {
        Some(updated.len() - 1)
    } else {
        last_updated(updated.drop_last(), id)
    }
}

/// The last index in `removed` of an entry for `id`.
pub open spec fn last_removed(removed: Seq<RemovedProps>, id: i32) -> Option<int>
    decreases removed.len(),
{
    if removed.len() == 0 {
        None
    } else if removed.last().id == id {
        Some(removed.len() - 1)
    } else {
        last_removed(removed.drop_last(), id)
    }
}

/// The errors met reading each entry of `updated`.
pub open spec fn update_errors(updated: Seq<UpdatedProps>) -> Seq<Option<Error>> {
    Seq::new(
        updated.len(),
        |k: int|
            match update_of(updated[k].fields@) {
                Ok(_) => None,
                Err(e) => Some(e),
            },
    )
}

/// `diffs` merges the entries of `updated` and `removed` by id: one diff
/// per id named in either, carrying the last set properties and the last
/// removed names given for that id.
pub open spec fn diffs_merged(
    updated: Seq<UpdatedProps>,
    removed: Seq<RemovedProps>,
    diffs: Seq<MenuDiff>,
) -> bool {
    &&& forall|i: int, j: int| 0 <= i < j < diffs.len() ==> #[trigger] diffs[i].id != #[trigger] diffs[j].id
    &&& forall|k: int| 0 <= k < updated.len() ==> has_diff(diffs, #[trigger] updated[k].id)
    &&& forall|k: int| 0 <= k < removed.len() ==> has_diff(diffs, #[trigger] removed[k].id)
    &&& forall|i: int|
        0 <= i < diffs.len() ==> {
            &&& (last_updated(updated, #[trigger] diffs[i].id) is Some || last_removed(removed, diffs[i].id) is Some)
            &&& diffs[i].update@ == match last_updated(updated, diffs[i].id) {
                Some(k) => update_of(updated[k].fields@)->Ok_0,
                None => empty_update_view(),
            }
            &&& diffs[i].remove@ == match last_removed(removed, diffs[i].id) {
                Some(k) => removed[k].fields@,
                None => Seq::<String>::empty(),
            }
        }
}

/// Some diff of `diffs` is for `id`.
pub open spec fn has_diff(diffs: Seq<MenuDiff>, id: i32) -> bool {
    exists|i: int| 0 <= i < diffs.len() && diffs[i].id == id
}

/// Where the diff for `id` stands in `diffs`, if there is one.
fn diff_position(diffs: &Vec<MenuDiff>, id: i32) -> (r: Option<usize>)
    ensures
        r is Some ==> r->0 < diffs@.len() && diffs@[r->0 as int].id == id,
        r is None ==> forall|i: int| 0 <= i < diffs@.len() ==> #[trigger] diffs@[i].id != id,
{
    let mut i: usize = 0;
    while i < diffs.len()
        invariant
            i <= diffs@.len(),
            forall|k: int| 0 <= k < i ==> #[trigger] diffs@[k].id != id,
        decreases diffs@.len() - i,
    {
        if diffs[i].id == id {
            return Some(i);
        }
        i = i + 1;
    }
    None
}

/// A copy of a list of strings.
fn copy_names(names: &Vec<String>) -> (r: Vec<String>)
    ensures
        r@ == names@,
{
    let mut r: Vec<String> = Vec::new();
    let mut i: usize = 0;
    while i < names.len()
        invariant
            i <= names@.len(),
            r@ == names@.subrange(0, i as int),
        decreases names@.len() - i,
    {
        r.push(names[i].clone());
        i = i + 1;
    }
    r
}

/// Turns the payload of an `ItemsPropertiesUpdated` signal into one diff per
/// item id, merging the set and the removed properties of each id. The
/// first entry of set properties that cannot be read gives the error.
pub fn diffs_from_update(update: &PropertiesUpdate) -> (r: Result<Vec<MenuDiff>, Error>)
    ensures
        match r {
            Ok(diffs) => {
                &&& first_error(update_errors(update.updated@)) is None
                &&& diffs_merged(update.updated@, update.removed@, diffs@)
            },
            Err(e) => first_error(update_errors(update.updated@)) == Some(e),
        },
{
    let ghost updated = update.updated@;
    let ghost removed = update.removed@;
    let ghost errors = update_errors(updated);
    let mut diffs: Vec<MenuDiff> = Vec::new();
    let mut i: usize = 0;
    while i < update.updated.len()
        invariant
            updated == update.updated@,
            errors == update_errors(updated),
            i <= updated.len(),
            forall|k: int| 0 <= k < i ==> #[trigger] errors[k] is None,
            forall|a: int, b: int| 0 <= a < b < diffs@.len() ==> #[trigger] diffs@[a].id != #[trigger] diffs@[b].id,
            forall|k: int| 0 <= k < i ==> has_diff(diffs@, #[trigger] updated[k].id),
            forall|a: int|
                0 <= a < diffs@.len() ==> {
                    &&& last_updated(updated.subrange(0, i as int), #[trigger] diffs@[a].id) is Some
                    &&& diffs@[a].update@ == update_of(updated[last_updated(updated.subrange(0, i as int), diffs@[a].id)->0].fields@)->Ok_0
                    &&& diffs@[a].remove@ == Seq::<String>::empty()
                },
        decreases updated.len() - i,
    {
        let ghost prefix = updated.subrange(0, i as int);
        let ghost next = updated.subrange(0, i + 1);
        assert(next.drop_last() =~= prefix);
        let id = update.updated[i].id;
        let parsed = MenuItemUpdate::from_props(&update.updated[i].fields);
        let u = match parsed {
            Ok(u) => u,
            Err(e) => {
                proof {
                    lemma_first_error(errors, i as int);
                }
                return Err(e);
            },
        };
        let ghost old_diffs = diffs@;
        let pos = diff_position(&diffs, id);
        let ghost w: int = match pos {
            Some(k) => k as int,
            None => old_diffs.len() as int,
        };
        match pos {
            Some(k) => {
                diffs.set(k, MenuDiff { id, update: u, remove: Vec::new() });
            },
            None => {
                diffs.push(MenuDiff { id, update: u, remove: Vec::new() });
            },
        }
        proof {
            assert(diffs@[w].id == id);
            assert forall|a: int| 0 <= a < diffs@.len() && a != w implies #[trigger] diffs@[a] == old_diffs[a] by {}
            assert forall|k: int| 0 <= k < i + 1 implies has_diff(diffs@, #[trigger] updated[k].id) by {
                if k < i {
                    let a = choose|a: int| 0 <= a < old_diffs.len() && old_diffs[a].id == updated[k].id;
                    if a == w {
                        assert(diffs@[w].id == updated[k].id);
                    } else {
                        assert(diffs@[a].id == updated[k].id);
                    }
                } else {
                    assert(diffs@[w].id == updated[k].id);
                }
            }
            assert forall|a: int, b: int| 0 <= a < b < diffs@.len() implies #[trigger] diffs@[a].id != #[trigger] diffs@[b].id by {
                if a != w && b != w {
                    assert(old_diffs[a].id != old_diffs[b].id);
                }
            }
        }
        i = i + 1;
    }
    proof {
        lemma_first_error(errors, i as int);
        assert(updated.subrange(0, i as int) =~= updated);
        assert forall|k: int| 0 <= k < updated.len() implies has_diff(diffs@, #[trigger] updated[k].id) by {
            assert(k < i);
        }
    }
    let ghost after_updates = diffs@;
    let mut j: usize = 0;
    while j < update.removed.len()
        invariant
            updated == update.updated@,
            removed == update.removed@,
            forall|a: int, b: int| 0 <= a < b < diffs@.len() ==> #[trigger] diffs@[a].id != #[trigger] diffs@[b].id,
            forall|k: int| 0 <= k < updated.len() ==> has_diff(diffs@, #[trigger] updated[k].id),
            j <= removed.len(),
            forall|k: int| 0 <= k < j ==> has_diff(diffs@, #[trigger] removed[k].id),
            forall|a: int|
                0 <= a < diffs@.len() ==> {
                    &&& (last_updated(updated, #[trigger] diffs@[a].id) is Some || last_removed(removed.subrange(0, j as int), diffs@[a].id) is Some)
                    &&& diffs@[a].update@ == match last_updated(updated, diffs@[a].id) {
                        Some(k) => update_of(updated[k].fields@)->Ok_0,
                        None => empty_update_view(),
                    }
                    &&& diffs@[a].remove@ == match last_removed(removed.subrange(0, j as int), diffs@[a].id) {
                        Some(k) => removed[k].fields@,
                        None => Seq::<String>::empty(),
                    }
                },
        decreases removed.len() - j,
    {
        let ghost prefix = removed.subrange(0, j as int);
        let ghost next = removed.subrange(0, j + 1);
        assert(next.drop_last() =~= prefix);
        let id = update.removed[j].id;
        let names = copy_names(&update.removed[j].fields);
        let ghost old_diffs = diffs@;
        let pos = diff_position(&diffs, id);
        let ghost w: int = match pos {
            Some(k) => k as int,
            None => old_diffs.len() as int,
        };
        match pos {
            Some(k) => {
                diffs[k].remove = names;
            },
            None => {
                proof {
                    if last_updated(updated, id) is Some {
                        lemma_last_updated_in(updated, id);
                        let k = last_updated(updated, id)->0;
                        let a = choose|a: int| 0 <= a < old_diffs.len() && old_diffs[a].id == updated[k].id;
                        assert(old_diffs[a].id != id);
                    }
                }
                diffs.push(MenuDiff { id, update: MenuItemUpdate::empty(), remove: names });
            },
        }
        proof {
            assert(diffs@[w].id == id);
            assert forall|a: int| 0 <= a < diffs@.len() && a != w implies #[trigger] diffs@[a] == old_diffs[a] by {}
            assert forall|k: int| 0 <= k < updated.len() implies has_diff(diffs@, #[trigger] updated[k].id) by {
                let a = choose|a: int| 0 <= a < old_diffs.len() && old_diffs[a].id == updated[k].id;
                if a == w {
                    assert(diffs@[w].id == updated[k].id);
                } else {
                    assert(diffs@[a].id == updated[k].id);
                }
            }
            assert forall|k: int| 0 <= k < j + 1 implies has_diff(diffs@, #[trigger] removed[k].id) by {
                if k < j {
                    let a = choose|a: int| 0 <= a < old_diffs.len() && old_diffs[a].id == removed[k].id;
                    if a == w {
                        assert(diffs@[w].id == removed[k].id);
                    } else {
                        assert(diffs@[a].id == removed[k].id);
                    }
                } else {
                    assert(diffs@[w].id == removed[k].id);
                }
            }
            assert forall|a: int, b: int| 0 <= a < b < diffs@.len() implies #[trigger] diffs@[a].id != #[trigger] diffs@[b].id by {
                if a != w && b != w {
                    assert(old_diffs[a].id != old_diffs[b].id);
                }
            }
        }
        j = j + 1;
    }
    proof {
        assert(removed.subrange(0, j as int) =~= removed);
        assert forall|k: int| 0 <= k < removed.len() implies has_diff(diffs@, #[trigger] removed[k].id) by {
            assert(k < j);
        }
    }
    Ok(diffs)
}

proof fn lemma_last_updated_in(updated: Seq<UpdatedProps>, id: i32)
    requires
        last_updated(updated, id) is Some,
    ensures
        0 <= last_updated(updated, id)->0 < updated.len(),
        updated[last_updated(updated, id)->0].id == id,
    decreases updated.len(),
{
    if updated.last().id != id {
        lemma_last_updated_in(updated.drop_last(), id);
    }
}

/// Whatever the payload, an id named both among the set and among the
/// removed properties gets exactly one diff.
pub proof fn lemma_one_diff_per_id(
    updated: Seq<UpdatedProps>,
    removed: Seq<RemovedProps>,
    diffs: Seq<MenuDiff>,
    id: i32,
    k: int,
    l: int,
)
    requires
        diffs_merged(updated, removed, diffs),
        0 <= k < updated.len(),
        0 <= l < removed.len(),
        updated[k].id == id,
        removed[l].id == id,
    ensures
        exists|i: int| 0 <= i < diffs.len() && diffs[i].id == id,
        forall|i: int, j: int|
            0 <= i < diffs.len() && 0 <= j < diffs.len() && diffs[i].id == id && diffs[j].id == id ==> i == j,
{
    assert(has_diff(diffs, updated[k].id));
    assert forall|a: int, b: int|
        0 <= a < diffs.len() && 0 <= b < diffs.len() && diffs[a].id == id && diffs[b].id == id implies a == b by {
        if a < b {
            assert(diffs[a].id != diffs[b].id);
        } else if b < a {
            assert(diffs[b].id != diffs[a].id);
        }
    }
}

} // verus!
