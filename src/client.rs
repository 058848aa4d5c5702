//! Events reported to consumers, and the decisions of the per-item and
//! per-menu trackers that produce them.
use crate::data::{ItemState, TrayItemMap};
use crate::error::Error;
use crate::item::{
    opt_text, pixmaps_of, pixmaps_view, status_of, tooltip_of, IconPixmap, PixmapView, Status,
    StatusNotifierItem, Tooltip,
};
use crate::menu::{MenuDiff, TrayMenu};
use crate::names::{ITEM_OBJECT, WATCHER_BUS};
use crate::value::{deref_opt, unwrap_variant, unwrapped, DbusValue};
use crate::text::{chars_of, str_eq};
use vstd::prelude::*;

verus! {

/// An event emitted by the client: a change from either the
/// `StatusNotifierItem` or the `DBusMenu` protocol.
#[derive(Debug, Clone)]
pub enum Event {
    /// A new item was added.
    Add(String, Box<StatusNotifierItem>),
    /// An existing item, or its menu, changed.
    Update(String, UpdateEvent),
    /// An item was unregistered.
    Remove(String),
}

/// The specific change carried by an update event.
#[derive(Debug, Clone)]
pub enum UpdateEvent {
    /// New attention icon name.
    AttentionIcon(Option<String>),
    /// New icon name and pixmaps.
    Icon { icon_name: Option<String>, icon_pixmap: Vec<IconPixmap> },
    /// New overlay icon name.
    OverlayIcon(Option<String>),
    /// New status.
    Status(Status),
    /// New title.
    Title(Option<String>),
    /// New tooltip.
    Tooltip(Option<Tooltip>),
    /// The whole menu layout changed; the entire layout is sent.
    Menu(TrayMenu),
    /// Properties of some menu items changed; only those are sent.
    MenuDiff(Vec<MenuDiff>),
    /// A menu connected to the item; its object path is sent.
    MenuConnect(String),
}

/// A request to activate an item or one of its menu entries, typically sent
/// when it is clicked.
#[derive(Debug, Clone)]
pub enum ActivateRequest {
    /// A menu entry was clicked.
    MenuItem { address: String, menu_path: String, submenu_id: i32 },
    /// Default activation, at screen coordinates `x`, `y`.
    Default { address: String, x: i32, y: i32 },
    /// Secondary (less important) activation, at screen coordinates `x`, `y`.
    Secondary { address: String, x: i32, y: i32 },
}

/// `(destination, path)` is the decomposition of the item address `a`: split
/// before its first `/`, or the whole address with the default object path
/// when it holds no `/`.
pub open spec fn is_address_split(a: Seq<char>, destination: Seq<char>, path: Seq<char>) -> bool {
    if a.contains('/') {
        &&& destination + path == a
        &&& !destination.contains('/')
        &&& path.len() > 0
        &&& path[0] == '/'
    } else {
        destination == a && path == ITEM_OBJECT@
    }
}

/// Splits an item address `<destination>[/<object/path>]` into its bus
/// destination and object path.
pub fn parse_address(address: &str) -> (r: (&str, String))
    ensures
        is_address_split(address@, r.0@, r.1@),
{
    let cs = chars_of(address);
    let n = cs.len();
    let mut i: usize = 0;
    while i < n && cs[i] != '/'
        invariant
            cs@ == address@,
            n == cs@.len(),
            i <= n,
            forall|k: int| 0 <= k < i ==> cs@[k] != '/',
        decreases n - i,
    {
        i = i + 1;
    }
    if i == n {
        assert(!address@.contains('/'));
        (address, ITEM_OBJECT.to_owned())
    } else {
        let destination = address.substring_char(0, i);
        let path = address.substring_char(i, n);
        assert(address@.contains('/')) by {
            assert(address@[i as int] == '/');
        }
        assert(destination@ + path@ == address@);
        assert(!destination@.contains('/')) by {
            if destination@.contains('/') {
                let k = choose|k: int| 0 <= k < destination@.len() && destination@[k] == '/';
                assert(cs@[k] == '/');
            }
        }
        assert(path@[0] == '/');
        (destination, path.to_owned())
    }
}

/// The kind of an event, without its payload.
#[derive(Debug, Clone, Copy, PartialEq, Eq, Structural)]
pub enum EventKind {
    /// An `Event::Add`.
    Add,
    /// An `Event::Update`.
    Update,
    /// An `Event::Remove`.
    Remove,
}

/// The kind of `e`.
pub open spec fn kind_of(e: Event) -> EventKind {
    match e {
        Event::Add(..) => EventKind::Add,
        Event::Update(..) => EventKind::Update,
        Event::Remove(..) => EventKind::Remove,
    }
}

/// The address that `e` is about.
pub open spec fn address_of(e: Event) -> String {
    match e {
        Event::Add(a, _) => a,
        Event::Update(a, _) => a,
        Event::Remove(a) => a,
    }
}

/// The events of one address are a proper lifecycle: none at all, or an
/// `Add` first and nowhere else, with a `Remove` at most as the last event.
pub open spec fn lifecycle_ok(events: Seq<Event>) -> bool {
    events.len() > 0 ==> {
        &&& kind_of(events[0]) == EventKind::Add
        &&& forall|i: int| 0 < i < events.len() ==> kind_of(#[trigger] events[i]) != EventKind::Add
        &&& forall|i: int|
            0 <= i < events.len() - 1 ==> kind_of(#[trigger] events[i]) != EventKind::Remove
    }
}

/// Where an item's lifecycle stands.
#[derive(Debug, Clone, Copy, PartialEq, Eq, Structural)]
pub enum ItemPhase {
    /// Waiting for the item's properties.
    Registering,
    /// Added and being watched.
    Active,
    /// Gone: nothing more is reported for it.
    Removed,
}

/// What the item tracker hears about its item.
#[derive(Debug)]
pub enum ItemInput {
    /// The item's properties were fetched and decoded, or could not be.
    Fetched(crate::error::Result<StatusNotifierItem>),
    /// A property of the item, or its menu, changed.
    Changed(UpdateEvent),
    /// The owner of a bus name changed from `old_owner` to `new_owner`.
    OwnerChanged { old_owner: Option<String>, new_owner: Option<String> },
    /// The item's signal stream ended, or the watcher was replaced.
    Ended,
}

/// What the item tracker does in answer to one input.
#[derive(Debug)]
pub struct ItemStep {
    /// Events to broadcast, in order.
    pub events: Vec<Event>,
    /// The object path of a menu to start tracking.
    pub watch_menu: Option<String>,
    /// Whether to tell the watcher that the item is gone.
    pub unregister: bool,
}

/// Whether an owner change says that the connection `destination` left the
/// bus.
pub open spec fn owner_lost(
    destination: Seq<char>,
    old_owner: Option<String>,
    new_owner: Option<String>,
) -> bool {
    &&& old_owner is Some
    &&& old_owner->0@ == destination
    &&& new_owner is None
}

/// The phase after `input` in phase `phase`.
pub open spec fn item_next_phase(phase: ItemPhase, input: ItemInput, destination: Seq<char>) -> ItemPhase {
    match phase {
        ItemPhase::Registering => match input {
            ItemInput::Fetched(Ok(_)) => ItemPhase::Active,
            ItemInput::Fetched(Err(_)) => ItemPhase::Removed,
            _ => ItemPhase::Registering,
        },
        ItemPhase::Active => match input {
            ItemInput::OwnerChanged { old_owner, new_owner } => if owner_lost(
                destination,
                old_owner,
                new_owner,
            ) {
                ItemPhase::Removed
            } else {
                ItemPhase::Active
            },
            ItemInput::Ended => ItemPhase::Removed,
            _ => ItemPhase::Active,
        },
        ItemPhase::Removed => ItemPhase::Removed,
    }
}

/// The events broadcast for `input` in phase `phase`, for the item at
/// `destination`.
pub open spec fn item_events(phase: ItemPhase, input: ItemInput, destination: String) -> Seq<Event> {
    match phase {
        ItemPhase::Registering => match input {
            ItemInput::Fetched(Ok(item)) => if item.menu is Some {
                seq![
                    Event::Add(destination, Box::new(item)),
                    Event::Update(destination, UpdateEvent::MenuConnect(item.menu->0)),
                ]
            } else {
                seq![Event::Add(destination, Box::new(item))]
            },
            _ => seq![],
        },
        ItemPhase::Active => match input {
            ItemInput::Changed(update) => seq![Event::Update(destination, update)],
            ItemInput::OwnerChanged { old_owner, new_owner } => if owner_lost(
                destination@,
                old_owner,
                new_owner,
            ) {
                seq![Event::Remove(destination)]
            } else {
                seq![]
            },
            ItemInput::Ended => seq![Event::Remove(destination)],
            _ => seq![],
        },
        ItemPhase::Removed => seq![],
    }
}

/// The phase reached and the events broadcast after `inputs`, from `phase`.
pub open spec fn item_trace(phase: ItemPhase, inputs: Seq<ItemInput>, destination: String) -> (
    ItemPhase,
    Seq<Event>,
)
    decreases inputs.len(),
{
    if inputs.len() == 0 {
        (phase, seq![])
    } else {
        let (p, events) = item_trace(phase, inputs.drop_last(), destination);
        (
            item_next_phase(p, inputs.last(), destination@),
            events + item_events(p, inputs.last(), destination),
        )
    }
}

/// The events so far fit the phase reached.
pub open spec fn trace_fits_phase(phase: ItemPhase, events: Seq<Event>) -> bool {
    match phase {
        ItemPhase::Registering => events.len() == 0,
        ItemPhase::Active => {
            &&& events.len() > 0
            &&& kind_of(events[0]) == EventKind::Add
            &&& forall|i: int| 0 < i < events.len() ==> kind_of(#[trigger] events[i]) == EventKind::Update
        },
        ItemPhase::Removed => events.len() > 0 ==> {
            &&& kind_of(events[0]) == EventKind::Add
            &&& forall|i: int|
                0 < i < events.len() - 1 ==> kind_of(#[trigger] events[i]) == EventKind::Update
            &&& events.len() > 1
            &&& kind_of(events.last()) == EventKind::Remove
        },
    }
}

proof fn lemma_item_trace_fits(inputs: Seq<ItemInput>, destination: String)
    ensures
        trace_fits_phase(
            item_trace(ItemPhase::Registering, inputs, destination).0,
            item_trace(ItemPhase::Registering, inputs, destination).1,
        ),
        forall|i: int|
            0 <= i < item_trace(ItemPhase::Registering, inputs, destination).1.len() ==> address_of(
                #[trigger] item_trace(ItemPhase::Registering, inputs, destination).1[i],
            ) == destination,
    decreases inputs.len(),
{
    if inputs.len() > 0 {
        lemma_item_trace_fits(inputs.drop_last(), destination);
        let (p, events) = item_trace(ItemPhase::Registering, inputs.drop_last(), destination);
        let added = item_events(p, inputs.last(), destination);
        let all = events + added;
        assert forall|i: int| 0 <= i < all.len() implies address_of(#[trigger] all[i])
            == destination by {
            if i >= events.len() {
                assert(all[i] == added[i - events.len()]);
            }
        }
    }
}

/// Whatever the item tracker hears, the events it broadcasts all concern its
/// own item, and form a proper lifecycle: `Add` exactly once and first, and
/// `Remove`, if it comes, last.
pub proof fn lemma_item_lifecycle(inputs: Seq<ItemInput>, destination: String)
    ensures
        lifecycle_ok(item_trace(ItemPhase::Registering, inputs, destination).1),
        forall|i: int|
            0 <= i < item_trace(ItemPhase::Registering, inputs, destination).1.len() ==> address_of(
                #[trigger] item_trace(ItemPhase::Registering, inputs, destination).1[i],
            ) == destination,
{
    lemma_item_trace_fits(inputs, destination);
}

/// The decisions of the tracker of one item.
#[derive(Debug)]
pub struct ItemTracker {
    destination: String,
    phase: ItemPhase,
}

impl ItemTracker {
    /// A tracker for the item at bus destination `destination`, waiting for
    /// its properties.
    pub fn new(destination: String) -> (r: ItemTracker)
        ensures
            r.destination() == destination,
            r.phase() == ItemPhase::Registering,
    {
        ItemTracker { destination, phase: ItemPhase::Registering }
    }

    /// The bus destination of the tracked item.
    pub closed spec fn destination(&self) -> String {
        self.destination
    }

    /// The phase of the tracked item.
    pub closed spec fn phase(&self) -> ItemPhase {
        self.phase
    }

    /// The phase of the tracked item.
    pub fn current_phase(&self) -> (r: ItemPhase)
        ensures
            r == self.phase(),
    {
        self.phase
    }

    /// Decides what to do about one input: which events to broadcast,
    /// whether to start a menu tracker, and whether to unregister the item.
    pub fn step(&mut self, input: ItemInput) -> (r: ItemStep)
        ensures
            final(self).destination() == old(self).destination(),
            final(self).phase() == item_next_phase(
                old(self).phase(),
                input,
                old(self).destination()@,
            ),
            r.events@ == item_events(old(self).phase(), input, old(self).destination()),
            r.watch_menu == (match (old(self).phase(), input) {
                (ItemPhase::Registering, ItemInput::Fetched(Ok(item))) => item.menu,
                _ => None,
            }),
            r.unregister == (old(self).phase() == ItemPhase::Active && final(self).phase()
                == ItemPhase::Removed),
    {
        let mut events: Vec<Event> = Vec::new();
        let mut watch_menu: Option<String> = None;
        let mut unregister = false;
        match self.phase {
            ItemPhase::Registering => match input {
                ItemInput::Fetched(Ok(item)) => {
                    let menu = item.menu.clone();
                    events.push(Event::Add(self.destination.clone(), Box::new(item)));
                    if let Some(path) = menu {
                        events.push(
                            Event::Update(self.destination.clone(), UpdateEvent::MenuConnect(path.clone())),
                        );
                        watch_menu = Some(path);
                    }
                    self.phase = ItemPhase::Active;
                },
                ItemInput::Fetched(Err(_)) => {
                    self.phase = ItemPhase::Removed;
                },
                _ => {},
            },
            ItemPhase::Active => match input {
                ItemInput::Changed(update) => {
                    events.push(Event::Update(self.destination.clone(), update));
                },
                ItemInput::OwnerChanged { old_owner, new_owner } => {
                    let lost = match (&old_owner, &new_owner) {
                        (Some(old), None) => str_eq(old.as_str(), self.destination.as_str()),
                        _ => false,
                    };
                    if lost {
                        events.push(Event::Remove(self.destination.clone()));
                        unregister = true;
                        self.phase = ItemPhase::Removed;
                    }
                },
                ItemInput::Ended => {
                    events.push(Event::Remove(self.destination.clone()));
                    unregister = true;
                    self.phase = ItemPhase::Removed;
                },
                _ => {},
            },
            ItemPhase::Removed => {},
        }
        proof {
            assert(events@ =~= item_events(old(self).phase(), input, old(self).destination()));
        }
        ItemStep { events, watch_menu, unregister }
    }
}

/// Where the tracking of a menu stands.
#[derive(Debug, Clone, Copy, PartialEq, Eq, Structural)]
pub enum MenuPhase {
    /// Waiting for the first layout.
    Fetching,
    /// Following layout and property changes.
    Tracking,
    /// Stopped after an error; the item itself stays.
    Stopped,
}

/// What the menu tracker hears about its menu.
#[derive(Debug)]
pub enum MenuInput {
    /// A `GetLayout` reply, decoded, or the decoding error.
    Layout(crate::error::Result<TrayMenu>),
    /// `GetLayout` failed on the bus or timed out.
    LayoutFailed,
    /// The menu signalled `LayoutUpdated`.
    LayoutUpdated,
    /// The menu signalled `ItemsPropertiesUpdated`, decoded, or the decoding
    /// error.
    PropertiesUpdated(crate::error::Result<Vec<MenuDiff>>),
}

/// What the menu tracker does in answer to one input.
#[derive(Debug)]
pub struct MenuStep {
    /// An update to broadcast for the item.
    pub update: Option<UpdateEvent>,
    /// Whether to fetch the layout again.
    pub fetch_layout: bool,
}

/// The phase after `input` in phase `phase`.
pub open spec fn menu_next_phase(phase: MenuPhase, input: MenuInput) -> MenuPhase {
    match phase {
        MenuPhase::Fetching => match input {
            MenuInput::Layout(Ok(_)) => MenuPhase::Tracking,
            MenuInput::LayoutUpdated => MenuPhase::Fetching,
            MenuInput::PropertiesUpdated(_) => MenuPhase::Fetching,
            _ => MenuPhase::Stopped,
        },
        MenuPhase::Tracking => match input {
            MenuInput::Layout(Ok(_)) => MenuPhase::Tracking,
            MenuInput::LayoutUpdated => MenuPhase::Tracking,
            MenuInput::PropertiesUpdated(Ok(_)) => MenuPhase::Tracking,
            _ => MenuPhase::Stopped,
        },
        MenuPhase::Stopped => MenuPhase::Stopped,
    }
}

/// The update broadcast for `input` in phase `phase`.
pub open spec fn menu_update(phase: MenuPhase, input: MenuInput) -> Option<UpdateEvent> {
    match phase {
        MenuPhase::Stopped => None,
        _ => match input {
            MenuInput::Layout(Ok(menu)) => Some(UpdateEvent::Menu(menu)),
            MenuInput::PropertiesUpdated(Ok(diffs)) => if phase == MenuPhase::Tracking {
                Some(UpdateEvent::MenuDiff(diffs))
            } else {
                None
            },
            _ => None,
        },
    }
}

/// The decisions of the tracker of one menu.
#[derive(Debug)]
pub struct MenuTracker {
    phase: MenuPhase,
}

impl MenuTracker {
    /// A tracker waiting for the first layout of its menu.
    pub fn new() -> (r: MenuTracker)
        ensures
            r.phase() == MenuPhase::Fetching,
    {
        MenuTracker { phase: MenuPhase::Fetching }
    }

    /// The phase of the tracked menu.
    pub closed spec fn phase(&self) -> MenuPhase {
        self.phase
    }

    /// The phase of the tracked menu.
    pub fn current_phase(&self) -> (r: MenuPhase)
        ensures
            r == self.phase(),
    {
        self.phase
    }

    /// Decides what to do about one input: the update to broadcast, and
    /// whether to fetch the layout again. A stopped tracker does nothing.
    pub fn step(&mut self, input: MenuInput) -> (r: MenuStep)
        ensures
            final(self).phase() == menu_next_phase(old(self).phase(), input),
            r.update == menu_update(old(self).phase(), input),
            r.fetch_layout == (old(self).phase() == MenuPhase::Tracking
                && input is LayoutUpdated),
    {
        match self.phase {
            MenuPhase::Stopped => MenuStep { update: None, fetch_layout: false },
            MenuPhase::Fetching => match input {
                MenuInput::Layout(Ok(menu)) => {
                    self.phase = MenuPhase::Tracking;
                    MenuStep { update: Some(UpdateEvent::Menu(menu)), fetch_layout: false }
                },
                MenuInput::LayoutUpdated => MenuStep { update: None, fetch_layout: false },
                MenuInput::PropertiesUpdated(_) => MenuStep { update: None, fetch_layout: false },
                _ => {
                    self.phase = MenuPhase::Stopped;
                    MenuStep { update: None, fetch_layout: false }
                },
            },
            MenuPhase::Tracking => match input {
                MenuInput::Layout(Ok(menu)) => MenuStep {
                    update: Some(UpdateEvent::Menu(menu)),
                    fetch_layout: false,
                },
                MenuInput::LayoutUpdated => MenuStep { update: None, fetch_layout: true },
                MenuInput::PropertiesUpdated(Ok(diffs)) => MenuStep {
                    update: Some(UpdateEvent::MenuDiff(diffs)),
                    fetch_layout: false,
                },
                _ => {
                    self.phase = MenuPhase::Stopped;
                    MenuStep { update: None, fetch_layout: false }
                },
            },
        }
    }
}

/// The property to read again when the item emits the signal `member`: the
/// six standard signals name their property, and any other `New<X>` names
/// `<X>`.
pub open spec fn signal_property(member: Seq<char>) -> Option<Seq<char>> {
    if member == "NewAttentionIcon"@ {
        Some("AttentionIconName"@)
    } else if member == "NewIcon"@ {
        Some("IconName"@)
    } else if member == "NewOverlayIcon"@ {
        Some("OverlayIconName"@)
    } else if member == "NewStatus"@ {
        Some("Status"@)
    } else if member == "NewTitle"@ {
        Some("Title"@)
    } else if member == "NewToolTip"@ {
        Some("ToolTip"@)
    } else if member.len() >= 3 && member.subrange(0, 3) == "New"@ {
        Some(member.subrange(3, member.len() as int))
    } else {
        None
    }
}

/// Names the property to read again when the item emits the signal
/// `member`; `None` for a signal that announces no property change.
pub fn property_for_signal(member: &str) -> (r: Option<String>)
    ensures
        opt_text(r) == signal_property(member@),
{
    if str_eq(member, "NewAttentionIcon") {
        Some("AttentionIconName".to_owned())
    } else if str_eq(member, "NewIcon") {
        Some("IconName".to_owned())
    } else if str_eq(member, "NewOverlayIcon") {
        Some("OverlayIconName".to_owned())
    } else if str_eq(member, "NewStatus") {
        Some("Status".to_owned())
    } else if str_eq(member, "NewTitle") {
        Some("Title".to_owned())
    } else if str_eq(member, "NewToolTip") {
        Some("ToolTip".to_owned())
    } else {
        let cs = chars_of(member);
        proof {
            reveal_strlit("New");
        }
        if cs.len() >= 3 && cs[0] == 'N' && cs[1] == 'e' && cs[2] == 'w' {
            assert(member@.subrange(0, 3) =~= "New"@);
            Some(member.substring_char(3, cs.len()).to_owned())
        } else {
            assert(cs@.len() >= 3 ==> member@.subrange(0, 3)[0] == cs@[0]);
            assert(cs@.len() >= 3 ==> member@.subrange(0, 3)[1] == cs@[1]);
            assert(cs@.len() >= 3 ==> member@.subrange(0, 3)[2] == cs@[2]);
            None
        }
    }
}

/// A property read as an optional string: a string is itself, anything
/// else is nothing.
pub open spec fn text_or_none(v: DbusValue) -> Option<String> {
    match unwrapped(v) {
        DbusValue::Str(s) => Some(s),
        _ => None,
    }
}

/// Pixmaps read from an optional `IconPixmap` property, or none when it is
/// absent or cannot be read.
pub open spec fn pixmaps_or_empty(o: Option<DbusValue>) -> Seq<PixmapView> {
    match o {
        Some(v) => match unwrapped(v) {
            DbusValue::Array(a) => match pixmaps_of(a@) {
                Ok(ps) => ps,
                Err(_) => Seq::empty(),
            },
            _ => Seq::empty(),
        },
        None => Seq::empty(),
    }
}

/// `r` is the update for the signal `member`, given the property read again
/// (and, for `NewIcon`, the icon pixmaps): `Ok(None)` for a signal that
/// carries no update.
pub open spec fn signal_update(
    member: Seq<char>,
    property: DbusValue,
    icon_pixmap: Option<DbusValue>,
    r: Result<Option<UpdateEvent>, Error>,
) -> bool {
    if member == "NewAttentionIcon"@ {
        r == Ok::<Option<UpdateEvent>, Error>(Some(UpdateEvent::AttentionIcon(text_or_none(property))))
    } else if member == "NewIcon"@ {
        r matches Ok(Some(UpdateEvent::Icon { icon_name, icon_pixmap: ps })) && icon_name
            == text_or_none(property) && pixmaps_view(ps@) == pixmaps_or_empty(icon_pixmap)
    } else if member == "NewOverlayIcon"@ {
        r == Ok::<Option<UpdateEvent>, Error>(Some(UpdateEvent::OverlayIcon(text_or_none(property))))
    } else if member == "NewStatus"@ {
        match unwrapped(property) {
            DbusValue::Str(s) => r == Ok::<Option<UpdateEvent>, Error>(Some(UpdateEvent::Status(status_of(s@)))),
            _ => r == Err::<Option<UpdateEvent>, Error>(Error::IncorrectType),
        }
    } else if member == "NewTitle"@ {
        r == Ok::<Option<UpdateEvent>, Error>(Some(UpdateEvent::Title(text_or_none(property))))
    } else if member == "NewToolTip"@ {
        match unwrapped(property) {
            DbusValue::Structure(fields) => match tooltip_of(fields@) {
                Ok(t) => r matches Ok(Some(UpdateEvent::Tooltip(Some(tip)))) && tip@ == t,
                Err(e) => r == Err::<Option<UpdateEvent>, Error>(e),
            },
            _ => r == Ok::<Option<UpdateEvent>, Error>(Some(UpdateEvent::Tooltip(None))),
        }
    } else {
        r == Ok::<Option<UpdateEvent>, Error>(None)
    }
}

/// Reads a property as an optional string.
fn read_text_or_none(v: &DbusValue) -> (r: Option<String>)
    ensures
        r == text_or_none(*v),
{
    match unwrap_variant(v) {
        DbusValue::Str(s) => Some(s.clone()),
        _ => None,
    }
}

/// Turns the property read again after the signal `member` into the update
/// to report; `icon_pixmap` is the `IconPixmap` property, read along with
/// `IconName` after `NewIcon`.
pub fn update_event_for(member: &str, property: &DbusValue, icon_pixmap: Option<&DbusValue>) -> (r: Result<Option<UpdateEvent>, Error>)
    ensures
        signal_update(member@, *property, deref_opt(icon_pixmap), r),
{
    if str_eq(member, "NewAttentionIcon") {
        Ok(Some(UpdateEvent::AttentionIcon(read_text_or_none(property))))
    } else if str_eq(member, "NewIcon") {
        let pixmaps = match icon_pixmap {
            Some(v) => match unwrap_variant(v) {
                DbusValue::Array(a) => match IconPixmap::from_array(a) {
                    Ok(ps) => ps,
                    Err(_) => Vec::new(),
                },
                _ => Vec::new(),
            },
            None => Vec::new(),
        };
        proof {
            assert(pixmaps_view(Seq::<IconPixmap>::empty()) =~= Seq::<PixmapView>::empty());
        }
        Ok(Some(UpdateEvent::Icon { icon_name: read_text_or_none(property), icon_pixmap: pixmaps }))
    } else if str_eq(member, "NewOverlayIcon") {
        Ok(Some(UpdateEvent::OverlayIcon(read_text_or_none(property))))
    } else if str_eq(member, "NewStatus") {
        match unwrap_variant(property) {
            DbusValue::Str(s) => Ok(Some(UpdateEvent::Status(Status::from(s.as_str())))),
            _ => Err(Error::IncorrectType),
        }
    } else if str_eq(member, "NewTitle") {
        Ok(Some(UpdateEvent::Title(read_text_or_none(property))))
    } else if str_eq(member, "NewToolTip") {
        match unwrap_variant(property) {
            DbusValue::Structure(fields) => match Tooltip::from_fields(fields) {
                Ok(t) => Ok(Some(UpdateEvent::Tooltip(Some(t)))),
                Err(e) => Err(e),
            },
            _ => Ok(Some(UpdateEvent::Tooltip(None))),
        }
    } else {
        Ok(None)
    }
}

/// Reacts to the bus giving this connection the name `name`. When it is the
/// watcher's name, the watcher that served before has gone and items will
/// register again: every stored item is dropped and a `Remove` is returned
/// for each; any other name changes nothing.
pub fn name_acquired(items: &mut TrayItemMap, name: &str) -> (r: Vec<Event>)
    requires
        old(items).wf(),
    ensures
        final(items).wf(),
        name@ == WATCHER_BUS@ ==> {
            &&& final(items)@ == Map::<Seq<char>, ItemState>::empty()
            &&& forall|i: int| 0 <= i < r@.len() ==> #[trigger] r@[i] is Remove
            &&& forall|i: int, j: int|
                0 <= i < j < r@.len() ==> address_of(#[trigger] r@[i])@ != address_of(#[trigger] r@[j])@
            &&& forall|i: int| 0 <= i < r@.len() ==> old(items)@.contains_key(address_of(#[trigger] r@[i])@)
            &&& forall|k: Seq<char>|
                #[trigger] old(items)@.contains_key(k) ==> exists|i: int|
                    0 <= i < r@.len() && #[trigger] address_of(r@[i])@ == k
        },
        name@ != WATCHER_BUS@ ==> final(items)@ == old(items)@ && r@.len() == 0,
{
    if !str_eq(name, WATCHER_BUS) {
        return Vec::new();
    }
    let addresses = items.clear_items();
    let mut events: Vec<Event> = Vec::new();
    let mut i: usize = 0;
    while i < addresses.len()
        invariant
            i <= addresses@.len(),
            events@.len() == i,
            forall|k: int| 0 <= k < i ==> #[trigger] events@[k] == Event::Remove(addresses@[k]),
        decreases addresses@.len() - i,
    {
        events.push(Event::Remove(addresses[i].clone()));
        i = i + 1;
    }
    assert forall|k: Seq<char>| #[trigger] old(items)@.contains_key(k) implies exists|i: int|
        0 <= i < events@.len() && #[trigger] address_of(events@[i])@ == k by {
        let i = choose|i: int| 0 <= i < addresses@.len() && #[trigger] addresses@[i]@ == k;
        assert(address_of(events@[i]) == addresses@[i]);
    }
    assert forall|i: int, j: int| 0 <= i < j < events@.len() implies address_of(#[trigger] events@[i])@ != address_of(#[trigger] events@[j])@ by {
        assert(address_of(events@[i]) == addresses@[i]);
        assert(address_of(events@[j]) == addresses@[j]);
    }
    assert forall|i: int| 0 <= i < events@.len() implies old(items)@.contains_key(address_of(#[trigger] events@[i])@) by {
        assert(address_of(events@[i]) == addresses@[i]);
    }
    events
}

} // verus!
