//! `StatusNotifierItem` item representation.
use crate::error::Error;
use crate::text::str_eq;
use crate::value::{
    bool_field, bytes_of, i32_field, path_field, prop_get, prop_lookup, read_bool, read_bytes, read_i32,
    read_path, read_str, str_field, unwrap_variant, unwrapped, DbusValue,
};
use vstd::prelude::*;

verus! {

/// An item to display inside the tray, with the properties of the
/// `org.kde.StatusNotifierItem` interface.
#[derive(Debug, Clone)]
pub struct StatusNotifierItem {
    /// A name unique for the application and stable between sessions.
    pub id: String,
    /// The category of this item.
    pub category: Category,
    /// A name that describes the application.
    pub title: Option<String>,
    /// The status of this item or of the associated application.
    pub status: Status,
    /// The windowing-system identifier of a window of the application, or 0.
    pub window_id: u32,
    /// An additional path to look up icons in.
    pub icon_theme_path: Option<String>,
    /// The freedesktop.org icon name of the item.
    pub icon_name: Option<String>,
    /// The icon as ARGB32 pixmaps.
    pub icon_pixmap: Option<Vec<IconPixmap>>,
    /// The icon name of an overlay for the main icon.
    pub overlay_icon_name: Option<String>,
    /// The overlay icon as ARGB32 pixmaps.
    pub overlay_icon_pixmap: Option<Vec<IconPixmap>>,
    /// The icon name shown when the item requests attention.
    pub attention_icon_name: Option<String>,
    /// The attention icon as ARGB32 pixmaps.
    pub attention_icon_pixmap: Option<Vec<IconPixmap>>,
    /// An animation (icon name or path) for the attention state.
    pub attention_movie_name: Option<String>,
    /// Extra information to show, for instance in a tooltip.
    pub tool_tip: Option<Tooltip>,
    /// The item only supports its context menu.
    pub item_is_menu: bool,
    /// Object path of the item's `com.canonical.dbusmenu` menu.
    pub menu: Option<String>,
}

/// The category of an item.
#[derive(Debug, Clone, Copy, PartialEq, Eq, Structural)]
pub enum Category {
    /// The status of a generic application; the fallback.
    ApplicationStatus,
    /// A communication application.
    Communications,
    /// A service of the system.
    SystemServices,
    /// The state of some hardware.
    Hardware,
}

/// The category that a `Category` property value names.
pub open spec fn category_of(s: Seq<char>) -> Category {
    if s == "Communications"@ {
        Category::Communications
    } else if s == "SystemServices"@ {
        Category::SystemServices
    } else if s == "Hardware"@ {
        Category::Hardware
    } else {
        Category::ApplicationStatus
    }
}

impl Default for Category {
    fn default() -> (r: Category)
        ensures
            r == Category::ApplicationStatus,
    {
        Category::ApplicationStatus
    }
}

impl<'a> From<&'a str> for Category {
    fn from(value: &'a str) -> (r: Category)
        ensures
            r == category_of(value@),
    {
        if str_eq(value, "Communications") {
            Category::Communications
        } else if str_eq(value, "SystemServices") {
            Category::SystemServices
        } else if str_eq(value, "Hardware") {
            Category::Hardware
        } else {
            Category::ApplicationStatus
        }
    }
}

impl<'a> vstd::std_specs::convert::FromSpecImpl<&'a str> for Category {
    open spec fn obeys_from_spec() -> bool {
        true
    }

    open spec fn from_spec(v: &'a str) -> Category {
        category_of(v@)
    }
}

/// The status of an item.
#[derive(Debug, Clone, Copy, PartialEq, Eq, Structural)]
pub enum Status {
    /// No status was given, or an unknown one.
    Unknown,
    /// Idle: nothing important to show.
    Passive,
    /// Active: the item should be shown.
    Active,
    /// The item carries important information for the user.
    NeedsAttention,
}

/// The status that a `Status` property value names.
pub open spec fn status_of(s: Seq<char>) -> Status {
    if s == "Passive"@ {
        Status::Passive
    } else if s == "Active"@ {
        Status::Active
    } else if s == "NeedsAttention"@ {
        Status::NeedsAttention
    } else {
        Status::Unknown
    }
}

impl Default for Status {
    fn default() -> (r: Status)
        ensures
            r == Status::Unknown,
    {
        Status::Unknown
    }
}

impl<'a> From<&'a str> for Status {
    fn from(value: &'a str) -> (r: Status)
        ensures
            r == status_of(value@),
    {
        if str_eq(value, "Passive") {
            Status::Passive
        } else if str_eq(value, "Active") {
            Status::Active
        } else if str_eq(value, "NeedsAttention") {
            Status::NeedsAttention
        } else {
            Status::Unknown
        }
    }
}

impl<'a> vstd::std_specs::convert::FromSpecImpl<&'a str> for Status {
    open spec fn obeys_from_spec() -> bool {
        true
    }

    open spec fn from_spec(v: &'a str) -> Status {
        status_of(v@)
    }
}

/// One ARGB32 image of an icon, in network byte order.
#[derive(Debug, Clone)]
pub struct IconPixmap {
    /// Width in pixels.
    pub width: i32,
    /// Height in pixels.
    pub height: i32,
    /// The pixel bytes.
    pub pixels: Vec<u8>,
}

/// Extra information about an item, shown for instance as a tooltip.
#[derive(Debug, Clone)]
pub struct Tooltip {
    /// Icon name of the tooltip.
    pub icon_name: String,
    /// Icon pixmaps of the tooltip.
    pub icon_data: Vec<IconPixmap>,
    /// Title of the tooltip.
    pub title: String,
    /// Description of the tooltip.
    pub description: String,
}

/// An icon pixmap seen as its width, height and pixel bytes.
pub type PixmapView = (i32, i32, Seq<u8>);

impl View for IconPixmap {
    type V = PixmapView;

    open spec fn view(&self) -> PixmapView {
        (self.width, self.height, self.pixels@)
    }
}

/// The views of a list of pixmaps.
pub open spec fn pixmaps_view(ps: Seq<IconPixmap>) -> Seq<PixmapView> {
    ps.map_values(|p: IconPixmap| p@)
}

/// A tooltip seen as its icon name, icon pixmaps, title and description.
pub type TooltipView = (Seq<char>, Seq<PixmapView>, Seq<char>, Seq<char>);

impl View for Tooltip {
    type V = TooltipView;

    open spec fn view(&self) -> TooltipView {
        (self.icon_name@, pixmaps_view(self.icon_data@), self.title@, self.description@)
    }
}

/// Reading one `(iiay)` pixmap structure: width, height and pixel bytes, in
/// that order.
pub open spec fn pixmap_of(v: DbusValue) -> Result<PixmapView, Error> {
    match unwrapped(v) {
        DbusValue::Structure(fields) => if fields@.len() < 1 {
            Err(Error::InvalidData("invalid or missing width"))
        } else {
            match unwrapped(fields@[0]) {
                DbusValue::I32(width) => if fields@.len() < 2 {
                    Err(Error::InvalidData("invalid or missing height"))
                } else {
                    match unwrapped(fields@[1]) {
                        DbusValue::I32(height) => if fields@.len() < 3 {
                            Err(Error::InvalidData("invalid or missing pixel values"))
                        } else {
                            match unwrapped(fields@[2]) {
                                DbusValue::Array(pixels) => match bytes_of(pixels@) {
                                    Ok(bytes) => Ok((width, height, bytes)),
                                    Err(e) => Err(e),
                                },
                                _ => Err(Error::IncorrectType),
                            }
                        },
                        _ => Err(Error::IncorrectType),
                    }
                },
                _ => Err(Error::IncorrectType),
            }
        },
        _ => Err(Error::IncorrectType),
    }
}

/// Reading an array of pixmaps: the first pixmap that cannot be read gives
/// the error.
pub open spec fn pixmaps_of(vals: Seq<DbusValue>) -> Result<Seq<PixmapView>, Error>
    decreases vals.len(),
{
    if vals.len() == 0 {
        Ok(Seq::empty())
    } else {
        match pixmap_of(vals[0]) {
            Ok(p) => match pixmaps_of(vals.drop_first()) {
                Ok(rest) => Ok(seq![p] + rest),
                Err(e) => Err(e),
            },
            Err(e) => Err(e),
        }
    }
}

/// `r`, with its pixmaps seen through their views, is `spec`.
pub open spec fn pixmaps_match(r: Result<Vec<IconPixmap>, Error>, spec: Result<Seq<PixmapView>, Error>) -> bool {
    match r {
        Ok(ps) => spec == Ok::<Seq<PixmapView>, Error>(pixmaps_view(ps@)),
        Err(e) => spec == Err::<Seq<PixmapView>, Error>(e),
    }
}

impl IconPixmap {
    /// Reads one `(iiay)` pixmap structure.
    pub fn from_value(v: &DbusValue) -> (r: Result<IconPixmap, Error>)
        ensures
            match r {
                Ok(p) => pixmap_of(*v) == Ok::<PixmapView, Error>(p@),
                Err(e) => pixmap_of(*v) == Err::<PixmapView, Error>(e),
            },
    {
        let fields = match unwrap_variant(v) {
            DbusValue::Structure(fields) => fields,
            _ => return Err(Error::IncorrectType),
        };
        if fields.len() < 1 {
            return Err(Error::InvalidData("invalid or missing width"));
        }
        let width = match unwrap_variant(&fields[0]) {
            DbusValue::I32(n) => *n,
            _ => return Err(Error::IncorrectType),
        };
        if fields.len() < 2 {
            return Err(Error::InvalidData("invalid or missing height"));
        }
        let height = match unwrap_variant(&fields[1]) {
            DbusValue::I32(n) => *n,
            _ => return Err(Error::IncorrectType),
        };
        if fields.len() < 3 {
            return Err(Error::InvalidData("invalid or missing pixel values"));
        }
        let pixels = match unwrap_variant(&fields[2]) {
            DbusValue::Array(a) => read_bytes(a),
            _ => return Err(Error::IncorrectType),
        };
        match pixels {
            Ok(pixels) => Ok(IconPixmap { width, height, pixels }),
            Err(e) => Err(e),
        }
    }

    /// Reads an array of `(iiay)` pixmap structures.
    pub fn from_array(array: &Vec<DbusValue>) -> (r: Result<Vec<IconPixmap>, Error>)
        ensures
            pixmaps_match(r, pixmaps_of(array@)),
    {
        let mut out: Vec<IconPixmap> = Vec::new();
        let mut i: usize = 0;
        assert(array@.subrange(0, array@.len() as int) =~= array@);
        proof {
            match pixmaps_of(array@) {
                Ok(rest) => assert(pixmaps_view(out@) + rest =~= rest),
                Err(_) => {},
            }
        }
        while i < array.len()
            invariant
                i <= array@.len(),
                pixmaps_of(array@) == (match pixmaps_of(array@.subrange(i as int, array@.len() as int)) {
                    Ok(rest) => Ok(pixmaps_view(out@) + rest),
                    Err(e) => Err(e),
                }),
            decreases array@.len() - i,
        {
            let ghost tail = array@.subrange(i as int, array@.len() as int);
            assert(tail.drop_first() =~= array@.subrange(i + 1, array@.len() as int));
            match IconPixmap::from_value(&array[i]) {
                Ok(p) => {
                    let ghost before = out@;
                    out.push(p);
                    proof {
                        assert(pixmaps_view(out@) =~= pixmaps_view(before).push(p@));
                        match pixmaps_of(tail.drop_first()) {
                            Ok(rest) => {
                                assert(pixmaps_view(before) + (seq![p@] + rest) =~= pixmaps_view(out@) + rest);
                            },
                            Err(_) => {},
                        }
                    }
                },
                Err(e) => {
                    return Err(e);
                },
            }
            i = i + 1;
        }
        assert(array@.subrange(i as int, array@.len() as int) =~= Seq::<DbusValue>::empty());
        assert(pixmaps_view(out@) + Seq::<PixmapView>::empty() =~= pixmaps_view(out@));
        Ok(out)
    }
}

/// Reading the fields of a `(sa(iiay)ss)` tooltip structure: icon name,
/// icon pixmaps, title and description, in that order.
pub open spec fn tooltip_of(fields: Seq<DbusValue>) -> Result<TooltipView, Error> {
    if fields.len() < 1 {
        Err(Error::InvalidData("icon_name"))
    } else {
        match unwrapped(fields[0]) {
            DbusValue::Str(icon_name) => if fields.len() < 2 {
                Err(Error::InvalidData("icon_data"))
            } else {
                match unwrapped(fields[1]) {
                    DbusValue::Array(a) => match pixmaps_of(a@) {
                        Ok(icon_data) => if fields.len() < 3 {
                            Err(Error::InvalidData("title"))
                        } else {
                            match unwrapped(fields[2]) {
                                DbusValue::Str(title) => if fields.len() < 4 {
                                    Err(Error::InvalidData("description"))
                                } else {
                                    match unwrapped(fields[3]) {
                                        DbusValue::Str(description) => Ok(
                                            (icon_name@, icon_data, title@, description@),
                                        ),
                                        _ => Err(Error::IncorrectType),
                                    }
                                },
                                _ => Err(Error::IncorrectType),
                            }
                        },
                        Err(e) => Err(e),
                    },
                    _ => Err(Error::IncorrectType),
                }
            },
            _ => Err(Error::IncorrectType),
        }
    }
}

/// `r`, seen through its view, is `spec`.
pub open spec fn tooltip_match(r: Result<Tooltip, Error>, spec: Result<TooltipView, Error>) -> bool {
    match r {
        Ok(t) => spec == Ok::<TooltipView, Error>(t@),
        Err(e) => spec == Err::<TooltipView, Error>(e),
    }
}

impl Tooltip {
    /// Reads the fields of a `(sa(iiay)ss)` tooltip structure.
    pub fn from_fields(fields: &Vec<DbusValue>) -> (r: Result<Tooltip, Error>)
        ensures
            tooltip_match(r, tooltip_of(fields@)),
    {
        if fields.len() < 1 {
            return Err(Error::InvalidData("icon_name"));
        }
        let icon_name = match unwrap_variant(&fields[0]) {
            DbusValue::Str(s) => s.clone(),
            _ => return Err(Error::IncorrectType),
        };
        if fields.len() < 2 {
            return Err(Error::InvalidData("icon_data"));
        }
        let icon_data = match unwrap_variant(&fields[1]) {
            DbusValue::Array(a) => match IconPixmap::from_array(a) {
                Ok(ps) => ps,
                Err(e) => return Err(e),
            },
            _ => return Err(Error::IncorrectType),
        };
        if fields.len() < 3 {
            return Err(Error::InvalidData("title"));
        }
        let title = match unwrap_variant(&fields[2]) {
            DbusValue::Str(s) => s.clone(),
            _ => return Err(Error::IncorrectType),
        };
        if fields.len() < 4 {
            return Err(Error::InvalidData("description"));
        }
        let description = match unwrap_variant(&fields[3]) {
            DbusValue::Str(s) => s.clone(),
            _ => return Err(Error::IncorrectType),
        };
        Ok(Tooltip { icon_name, icon_data, title, description })
    }
}

/// An item seen through the views of its fields.
pub struct ItemView {
    pub id: Seq<char>,
    pub category: Category,
    pub title: Option<Seq<char>>,
    pub status: Status,
    pub window_id: u32,
    pub icon_theme_path: Option<Seq<char>>,
    pub icon_name: Option<Seq<char>>,
    pub icon_pixmap: Option<Seq<PixmapView>>,
    pub overlay_icon_name: Option<Seq<char>>,
    pub overlay_icon_pixmap: Option<Seq<PixmapView>>,
    pub attention_icon_name: Option<Seq<char>>,
    pub attention_icon_pixmap: Option<Seq<PixmapView>>,
    pub attention_movie_name: Option<Seq<char>>,
    pub tool_tip: Option<TooltipView>,
    pub item_is_menu: bool,
    pub menu: Option<Seq<char>>,
}

/// The characters of an optional string.
pub open spec fn opt_text(o: Option<String>) -> Option<Seq<char>> {
    match o {
        Some(s) => Some(s@),
        None => None,
    }
}

/// The views of optional pixmaps.
pub open spec fn opt_pixmaps(o: Option<Vec<IconPixmap>>) -> Option<Seq<PixmapView>> {
    match o {
        Some(ps) => Some(pixmaps_view(ps@)),
        None => None,
    }
}

impl View for StatusNotifierItem {
    type V = ItemView;

    open spec fn view(&self) -> ItemView {
        ItemView {
            id: self.id@,
            category: self.category,
            title: opt_text(self.title),
            status: self.status,
            window_id: self.window_id,
            icon_theme_path: opt_text(self.icon_theme_path),
            icon_name: opt_text(self.icon_name),
            icon_pixmap: opt_pixmaps(self.icon_pixmap),
            overlay_icon_name: opt_text(self.overlay_icon_name),
            overlay_icon_pixmap: opt_pixmaps(self.overlay_icon_pixmap),
            attention_icon_name: opt_text(self.attention_icon_name),
            attention_icon_pixmap: opt_pixmaps(self.attention_icon_pixmap),
            attention_movie_name: opt_text(self.attention_movie_name),
            tool_tip: match self.tool_tip {
                Some(t) => Some(t@),
                None => None,
            },
            item_is_menu: self.item_is_menu,
            menu: opt_text(self.menu),
        }
    }
}

/// Reading an optional string property: its characters.
pub open spec fn text_prop(props: Seq<(String, DbusValue)>, key: Seq<char>) -> Result<Option<Seq<char>>, Error> {
    match str_field(prop_lookup(props, key)) {
        Ok(o) => Ok(opt_text(o)),
        Err(e) => Err(e),
    }
}

/// Reading an optional pixmap-array property.
pub open spec fn pixmaps_prop(props: Seq<(String, DbusValue)>, key: Seq<char>) -> Result<Option<Seq<PixmapView>>, Error> {
    match prop_lookup(props, key) {
        None => Ok(None),
        Some(v) => match unwrapped(v) {
            DbusValue::Array(a) => match pixmaps_of(a@) {
                Ok(ps) => Ok(Some(ps)),
                Err(e) => Err(e),
            },
            _ => Err(Error::IncorrectType),
        },
    }
}

/// Reading the optional `ToolTip` property.
pub open spec fn tooltip_prop(props: Seq<(String, DbusValue)>) -> Result<Option<TooltipView>, Error> {
    match prop_lookup(props, "ToolTip"@) {
        None => Ok(None),
        Some(v) => match unwrapped(v) {
            DbusValue::Structure(fields) => match tooltip_of(fields@) {
                Ok(t) => Ok(Some(t)),
                Err(e) => Err(e),
            },
            _ => Err(Error::IncorrectType),
        },
    }
}

/// Reading the properties of an item: `Id` must be present; every other
/// property may be absent, and then takes its default; the first property,
/// in the order of the fields of [`StatusNotifierItem`] (with `Category`
/// read after `ItemIsMenu`), that has the wrong shape gives the error.
pub open spec fn item_of(props: Seq<(String, DbusValue)>) -> Result<ItemView, Error> {
    let id = str_field(prop_lookup(props, "Id"@));
    let title = text_prop(props, "Title"@);
    let status = str_field(prop_lookup(props, "Status"@));
    let window_id = i32_field(prop_lookup(props, "WindowId"@));
    let icon_theme_path = text_prop(props, "IconThemePath"@);
    let icon_name = text_prop(props, "IconName"@);
    let icon_pixmap = pixmaps_prop(props, "IconPixmap"@);
    let overlay_icon_name = text_prop(props, "OverlayIconName"@);
    let overlay_icon_pixmap = pixmaps_prop(props, "OverlayIconPixmap"@);
    let attention_icon_name = text_prop(props, "AttentionIconName"@);
    let attention_icon_pixmap = pixmaps_prop(props, "AttentionIconPixmap"@);
    let attention_movie_name = text_prop(props, "AttentionMovieName"@);
    let tool_tip = tooltip_prop(props);
    let item_is_menu = bool_field(prop_lookup(props, "ItemIsMenu"@));
    let category = str_field(prop_lookup(props, "Category"@));
    let menu = path_field(prop_lookup(props, "Menu"@));
    if id == Ok::<Option<String>, Error>(None) {
        Err(Error::MissingProperty("Id"))
    } else if id is Err {
        Err(id->Err_0)
    } else if title is Err {
        Err(title->Err_0)
    } else if status is Err {
        Err(status->Err_0)
    } else if window_id is Err {
        Err(window_id->Err_0)
    } else if icon_theme_path is Err {
        Err(icon_theme_path->Err_0)
    } else if icon_name is Err {
        Err(icon_name->Err_0)
    } else if icon_pixmap is Err {
        Err(icon_pixmap->Err_0)
    } else if overlay_icon_name is Err {
        Err(overlay_icon_name->Err_0)
    } else if overlay_icon_pixmap is Err {
        Err(overlay_icon_pixmap->Err_0)
    } else if attention_icon_name is Err {
        Err(attention_icon_name->Err_0)
    } else if attention_icon_pixmap is Err {
        Err(attention_icon_pixmap->Err_0)
    } else if attention_movie_name is Err {
        Err(attention_movie_name->Err_0)
    } else if tool_tip is Err {
        Err(tool_tip->Err_0)
    } else if item_is_menu is Err {
        Err(item_is_menu->Err_0)
    } else if category is Err {
        Err(category->Err_0)
    } else if menu is Err {
        Err(menu->Err_0)
    } else {
        Ok(
            ItemView {
                id: id->Ok_0->0@,
                category: match category->Ok_0 {
                    Some(c) => category_of(c@),
                    None => Category::ApplicationStatus,
                },
                title: title->Ok_0,
                status: match status->Ok_0 {
                    Some(s) => status_of(s@),
                    None => Status::Unknown,
                },
                window_id: match window_id->Ok_0 {
                    Some(n) => n as u32,
                    None => 0,
                },
                icon_theme_path: icon_theme_path->Ok_0,
                icon_name: icon_name->Ok_0,
                icon_pixmap: icon_pixmap->Ok_0,
                overlay_icon_name: overlay_icon_name->Ok_0,
                overlay_icon_pixmap: overlay_icon_pixmap->Ok_0,
                attention_icon_name: attention_icon_name->Ok_0,
                attention_icon_pixmap: attention_icon_pixmap->Ok_0,
                attention_movie_name: attention_movie_name->Ok_0,
                tool_tip: tool_tip->Ok_0,
                item_is_menu: match item_is_menu->Ok_0 {
                    Some(b) => b,
                    None => false,
                },
                menu: opt_text(menu->Ok_0),
            },
        )
    }
}

/// Reads an optional string property.
fn read_text_prop(props: &Vec<(String, DbusValue)>, key: &str) -> (r: Result<Option<String>, Error>)
    ensures
        match r {
            Ok(o) => text_prop(props@, key@) == Ok::<Option<Seq<char>>, Error>(opt_text(o)),
            Err(e) => text_prop(props@, key@) == Err::<Option<Seq<char>>, Error>(e),
        },
{
    read_str(prop_get(props, key))
}

/// Reads an optional pixmap-array property.
fn read_pixmaps_prop(props: &Vec<(String, DbusValue)>, key: &str) -> (r: Result<Option<Vec<IconPixmap>>, Error>)
    ensures
        match r {
            Ok(o) => pixmaps_prop(props@, key@) == Ok::<Option<Seq<PixmapView>>, Error>(opt_pixmaps(o)),
            Err(e) => pixmaps_prop(props@, key@) == Err::<Option<Seq<PixmapView>>, Error>(e),
        },
{
    match prop_get(props, key) {
        None => Ok(None),
        Some(v) => match unwrap_variant(v) {
            DbusValue::Array(a) => match IconPixmap::from_array(a) {
                Ok(ps) => Ok(Some(ps)),
                Err(e) => Err(e),
            },
            _ => Err(Error::IncorrectType),
        },
    }
}

/// Reads the optional `ToolTip` property.
fn read_tooltip_prop(props: &Vec<(String, DbusValue)>) -> (r: Result<Option<Tooltip>, Error>)
    ensures
        match r {
            Ok(Some(t)) => tooltip_prop(props@) == Ok::<Option<TooltipView>, Error>(Some(t@)),
            Ok(None) => tooltip_prop(props@) == Ok::<Option<TooltipView>, Error>(None),
            Err(e) => tooltip_prop(props@) == Err::<Option<TooltipView>, Error>(e),
        },
{
    match prop_get(props, "ToolTip") {
        None => Ok(None),
        Some(v) => match unwrap_variant(v) {
            DbusValue::Structure(fields) => match Tooltip::from_fields(fields) {
                Ok(t) => Ok(Some(t)),
                Err(e) => Err(e),
            },
            _ => Err(Error::IncorrectType),
        },
    }
}

impl StatusNotifierItem {
    /// Reads an item from the properties that `GetAll` returned for the
    /// `org.kde.StatusNotifierItem` interface.
    #[verifier::rlimit(50)]
    pub fn from_props(props: &Vec<(String, DbusValue)>) -> (r: Result<StatusNotifierItem, Error>)
        ensures
            match r {
                Ok(item) => item_of(props@) == Ok::<ItemView, Error>(item@),
                Err(e) => item_of(props@) == Err::<ItemView, Error>(e),
            },
    {
        proof {
            reveal_strlit("ToolTip");
        }
        let id = match read_str(prop_get(props, "Id")) {
            Ok(Some(id)) => id,
            Ok(None) => return Err(Error::MissingProperty("Id")),
            Err(e) => return Err(e),
        };
        let title = read_text_prop(props, "Title")?;
        let status = match read_str(prop_get(props, "Status"))? {
            Some(s) => Status::from(s.as_str()),
            None => Status::Unknown,
        };
        let window_id = match read_i32(prop_get(props, "WindowId"))? {
            Some(n) => n as u32,
            None => 0,
        };
        let icon_theme_path = read_text_prop(props, "IconThemePath")?;
        let icon_name = read_text_prop(props, "IconName")?;
        let icon_pixmap = read_pixmaps_prop(props, "IconPixmap")?;
        let overlay_icon_name = read_text_prop(props, "OverlayIconName")?;
        let overlay_icon_pixmap = read_pixmaps_prop(props, "OverlayIconPixmap")?;
        let attention_icon_name = read_text_prop(props, "AttentionIconName")?;
        let attention_icon_pixmap = read_pixmaps_prop(props, "AttentionIconPixmap")?;
        let attention_movie_name = read_text_prop(props, "AttentionMovieName")?;
        let tool_tip = read_tooltip_prop(props)?;
        let item_is_menu = match read_bool(prop_get(props, "ItemIsMenu"))? {
            Some(b) => b,
            None => false,
        };
        let category = match read_str(prop_get(props, "Category"))? {
            Some(c) => Category::from(c.as_str()),
            None => Category::ApplicationStatus,
        };
        let menu = read_path(prop_get(props, "Menu"))?;
        Ok(
            StatusNotifierItem {
                id,
                category,
                title,
                status,
                window_id,
                icon_theme_path,
                icon_name,
                icon_pixmap,
                overlay_icon_name,
                overlay_icon_pixmap,
                attention_icon_name,
                attention_icon_pixmap,
                attention_movie_name,
                tool_tip,
                item_is_menu,
                menu,
            },
        )
    }
}

} // verus!
