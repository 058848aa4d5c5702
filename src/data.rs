//! The shared item store and the folding of menu diffs into a cached menu.
use crate::client::{Event, UpdateEvent};
use crate::item::StatusNotifierItem;
use crate::menu::{MenuDiff, MenuItem, MenuItemUpdate, TrayMenu};
use crate::text::str_eq;
use vstd::prelude::*;

verus! {

/// What the store keeps of one item: its last-known properties and menu.
pub type ItemState = (StatusNotifierItem, Option<TrayMenu>);

/// The store of every known item, by address.
pub struct TrayItemMap {
    entries: Vec<(String, StatusNotifierItem, Option<TrayMenu>)>,
    contents: Ghost<Map<Seq<char>, ItemState>>,
}

/// `new` is the stored state `old` after the item update `event`.
pub open spec fn entry_updated(old: ItemState, new: ItemState, event: UpdateEvent) -> bool {
    match event {
        UpdateEvent::AttentionIcon(name) => new == (
            StatusNotifierItem { attention_icon_name: name, ..old.0 },
            old.1,
        ),
        UpdateEvent::Icon { icon_name, icon_pixmap } => new == (
            StatusNotifierItem {
                icon_name,
                icon_pixmap: if icon_pixmap@.len() == 0 {
                    None
                } else {
                    Some(icon_pixmap)
                },
                ..old.0
            },
            old.1,
        ),
        UpdateEvent::OverlayIcon(name) => new == (
            StatusNotifierItem { overlay_icon_name: name, ..old.0 },
            old.1,
        ),
        UpdateEvent::Status(status) => new == (StatusNotifierItem { status, ..old.0 }, old.1),
        UpdateEvent::Title(title) => new == (StatusNotifierItem { title, ..old.0 }, old.1),
        UpdateEvent::Tooltip(tool_tip) => new == (
            StatusNotifierItem { tool_tip, ..old.0 },
            old.1,
        ),
        UpdateEvent::Menu(menu) => new == (old.0, Some(menu)),
        UpdateEvent::MenuConnect(path) => new == (
            StatusNotifierItem { menu: Some(path), ..old.0 },
            old.1,
        ),
        UpdateEvent::MenuDiff(diffs) => {
            &&& new.0 == old.0
            &&& (new.1 is Some <==> old.1 is Some)
            &&& old.1 is Some ==> menu_patched(old.1->0, new.1->0, diffs@)
        },
    }
}

/// `new` is the store `old` after `event` for the item at `address`: the
/// item's state is updated when it is known, and nothing changes otherwise.
pub open spec fn store_updated(
    old: Map<Seq<char>, ItemState>,
    new: Map<Seq<char>, ItemState>,
    address: Seq<char>,
    event: UpdateEvent,
) -> bool {
    if old.contains_key(address) {
        &&& new.dom() == old.dom()
        &&& forall|k: Seq<char>| k != address && old.contains_key(k) ==> new[k] == old[k]
        &&& entry_updated(old[address], new[address], event)
    } else {
        new == old
    }
}

/// `new` is the store `old` after the event `event`: an `Add` stores the item
/// with no menu, an `Update` folds into the stored item, a `Remove` drops it.
pub open spec fn store_step(
    old: Map<Seq<char>, ItemState>,
    new: Map<Seq<char>, ItemState>,
    event: Event,
) -> bool {
    match event {
        Event::Add(address, item) => new == old.insert(address@, (*item, None)),
        Event::Update(address, update) => store_updated(old, new, address@, update),
        Event::Remove(address) => new == old.remove(address@),
    }
}

/// `new` is the store `old` after `events`, applied in order.
pub open spec fn store_run(
    old: Map<Seq<char>, ItemState>,
    new: Map<Seq<char>, ItemState>,
    events: Seq<Event>,
) -> bool
    decreases events.len(),
{
    if events.len() == 0 {
        new == old
    } else {
        exists|mid: Map<Seq<char>, ItemState>|
            store_run(old, mid, events.drop_last()) && #[trigger] store_step(
                mid,
                new,
                events.last(),
            )
    }
}

impl View for TrayItemMap {
    type V = Map<Seq<char>, ItemState>;

    closed spec fn view(&self) -> Map<Seq<char>, ItemState> {
        self.contents@
    }
}

impl TrayItemMap {
    /// The entries hold each address once, and hold exactly the contents.
    pub closed spec fn wf(&self) -> bool {
        &&& forall|i: int, j: int|
            0 <= i < j < self.entries@.len() ==> #[trigger] self.entries@[i].0@
                != #[trigger] self.entries@[j].0@
        &&& forall|i: int|
            0 <= i < self.entries@.len() ==> {
                &&& self.contents@.contains_key(#[trigger] self.entries@[i].0@)
                &&& self.contents@[self.entries@[i].0@] == (
                    self.entries@[i].1,
                    self.entries@[i].2,
                )
            }
        &&& forall|k: Seq<char>|
            #[trigger] self.contents@.contains_key(k) ==> exists|i: int|
                0 <= i < self.entries@.len() && #[trigger] self.entries@[i].0@ == k
    }

    /// An empty store.
    pub fn new() -> (r: TrayItemMap)
        ensures
            r.wf(),
            r@ == Map::<Seq<char>, ItemState>::empty(),
    {
        TrayItemMap { entries: Vec::new(), contents: Ghost(Map::empty()) }
    }

    /// Every stored entry: `(address, item, menu)`, each address once.
    pub fn get_map(&self) -> (r: &Vec<(String, StatusNotifierItem, Option<TrayMenu>)>)
        requires
            self.wf(),
        ensures
            forall|i: int, j: int|
                0 <= i < j < r@.len() ==> #[trigger] r@[i].0@ != #[trigger] r@[j].0@,
            forall|i: int|
                0 <= i < r@.len() ==> #[trigger] self@.contains_key(r@[i].0@) && self@[r@[i].0@]
                    == (r@[i].1, r@[i].2),
            forall|k: Seq<char>|
                #[trigger] self@.contains_key(k) ==> exists|i: int|
                    0 <= i < r@.len() && #[trigger] r@[i].0@ == k,
    {
        &self.entries
    }

    /// Where the entry for `dest` stands, if there is one.
    fn position(&self, dest: &str) -> (r: Option<usize>)
        requires
            self.wf(),
        ensures
            r is Some <==> self@.contains_key(dest@),
            r is Some ==> r->0 < self.entries@.len() && self.entries@[r->0 as int].0@ == dest@,
    {
        let mut i: usize = 0;
        while i < self.entries.len()
            invariant
                self.wf(),
                i <= self.entries@.len(),
                forall|k: int| 0 <= k < i ==> #[trigger] self.entries@[k].0@ != dest@,
            decreases self.entries@.len() - i,
        {
            if str_eq(self.entries[i].0.as_str(), dest) {
                return Some(i);
            }
            i = i + 1;
        }
        None
    }

    /// Whether an item is stored at `dest`.
    pub fn contains(&self, dest: &str) -> (r: bool)
        requires
            self.wf(),
        ensures
            r == self@.contains_key(dest@),
    {
        self.position(dest).is_some()
    }

    /// Stores `item` at `dest` with no menu, replacing what was there.
    pub fn new_item(&mut self, dest: String, item: StatusNotifierItem)
        requires
            old(self).wf(),
        ensures
            final(self).wf(),
            final(self)@ == old(self)@.insert(dest@, (item, None)),
    {
        let ghost key = dest@;
        let ghost before = self.entries@;
        match self.position(dest.as_str()) {
            Some(i) => {
                self.entries.set(i, (dest, item, None));
                proof {
                    self.contents@ = self.contents@.insert(key, (item, None));
                    assert forall|j: int| 0 <= j < before.len() implies #[trigger] self.entries@[j].0@
                        == before[j].0@ by {}
                    assert forall|k: Seq<char>| #[trigger]
                        self.contents@.contains_key(k) implies exists|j: int|
                        0 <= j < self.entries@.len() && #[trigger] self.entries@[j].0@ == k by {
                        if k == key {
                            assert(self.entries@[i as int].0@ == k);
                        } else {
                            let j = choose|j: int| 0 <= j < before.len() && #[trigger] before[j].0@ == k;
                            assert(self.entries@[j].0@ == k);
                        }
                    }
                }
            },
            None => {
                self.entries.push((dest, item, None));
                proof {
                    self.contents@ = self.contents@.insert(key, (item, None));
                    assert forall|k: Seq<char>| #[trigger]
                        self.contents@.contains_key(k) implies exists|j: int|
                        0 <= j < self.entries@.len() && #[trigger] self.entries@[j].0@ == k by {
                        if k == key {
                            assert(self.entries@[before.len() as int].0@ == k);
                        } else {
                            let j = choose|j: int| 0 <= j < before.len() && #[trigger] before[j].0@ == k;
                            assert(self.entries@[j].0@ == k);
                        }
                    }
                }
            },
        }
    }

    /// Drops the item stored at `dest`, if any.
    pub fn remove_item(&mut self, dest: &str)
        requires
            old(self).wf(),
        ensures
            final(self).wf(),
            final(self)@ == old(self)@.remove(dest@),
    {
        match self.position(dest) {
            Some(i) => {
                let ghost before = self.entries@;
                self.entries.remove(i);
                proof {
                    self.contents@ = self.contents@.remove(dest@);
                    assert forall|k: Seq<char>| #[trigger]
                        self.contents@.contains_key(k) implies exists|j: int|
                        0 <= j < self.entries@.len() && #[trigger] self.entries@[j].0@ == k by {
                        let j = choose|j: int| 0 <= j < before.len() && #[trigger] before[j].0@ == k;
                        if j < i {
                            assert(self.entries@[j].0@ == k);
                        } else {
                            assert(self.entries@[j - 1].0@ == k);
                        }
                    }
                }
            },
            None => {
                assert(self@ == self@.remove(dest@));
            },
        }
    }

    /// Drops every item and returns their addresses.
    pub fn clear_items(&mut self) -> (r: Vec<String>)
        requires
            old(self).wf(),
        ensures
            final(self).wf(),
            final(self)@ == Map::<Seq<char>, ItemState>::empty(),
            forall|i: int, j: int|
                0 <= i < j < r@.len() ==> #[trigger] r@[i]@ != #[trigger] r@[j]@,
            forall|i: int| 0 <= i < r@.len() ==> old(self)@.contains_key(#[trigger] r@[i]@),
            forall|k: Seq<char>|
                #[trigger] old(self)@.contains_key(k) ==> exists|i: int|
                    0 <= i < r@.len() && #[trigger] r@[i]@ == k,
    {
        let ghost before = self.entries@;
        let mut keys: Vec<String> = Vec::new();
        while self.entries.len() > 0
            invariant
                before.len() == keys@.len() + self.entries@.len(),
                forall|i: int| 0 <= i < keys@.len() ==> #[trigger] keys@[i]@ == before[i].0@,
                forall|i: int|
                    0 <= i < self.entries@.len() ==> #[trigger] self.entries@[i]
                        == before[keys@.len() + i],
            decreases self.entries@.len(),
        {
            let (key, _item, _menu) = self.entries.remove(0);
            keys.push(key);
        }
        proof {
            self.contents@ = Map::empty();
            assert forall|k: Seq<char>| #[trigger] old(self)@.contains_key(k) implies exists|i: int|
                0 <= i < keys@.len() && #[trigger] keys@[i]@ == k by {
                let i = choose|i: int| 0 <= i < before.len() && #[trigger] before[i].0@ == k;
                assert(keys@[i]@ == k);
            }
            assert forall|i: int, j: int| 0 <= i < j < keys@.len() implies #[trigger] keys@[i]@
                != #[trigger] keys@[j]@ by {
                assert(before[i].0@ != before[j].0@);
            }
            assert forall|i: int| 0 <= i < keys@.len() implies old(self)@.contains_key(
                #[trigger] keys@[i]@,
            ) by {
                assert(old(self).entries@[i].0@ == keys@[i]@);
            }
        }
        keys
    }

    /// Replaces the cached menu of the item at `dest`, if it is stored.
    pub fn update_menu(&mut self, dest: &str, menu: TrayMenu)
        requires
            old(self).wf(),
        ensures
            final(self).wf(),
            old(self)@.contains_key(dest@) ==> final(self)@ == old(self)@.insert(
                dest@,
                (old(self)@[dest@].0, Some(menu)),
            ),
            !old(self)@.contains_key(dest@) ==> final(self)@ == old(self)@,
    {
        let ghost before = self.entries@;
        if let Some(i) = self.position(dest) {
            let ghost item = self.entries@[i as int].1;
            self.entries[i].2 = Some(menu);
            proof {
                self.contents@ = self.contents@.insert(dest@, (item, Some(menu)));
                assert forall|j: int| 0 <= j < before.len() implies #[trigger] self.entries@[j].0@
                    == before[j].0@ by {}
                assert forall|k: Seq<char>| #[trigger]
                    self.contents@.contains_key(k) implies exists|j: int|
                    0 <= j < self.entries@.len() && #[trigger] self.entries@[j].0@ == k by {
                    let j = choose|j: int| 0 <= j < before.len() && #[trigger] before[j].0@ == k;
                    assert(self.entries@[j].0@ == k);
                }
            }
        }
    }
    /// Folds an update of the item at `dest` into its stored state; an
    /// unknown `dest` leaves the store unchanged.
    pub fn apply_update_event(&mut self, dest: &str, event: UpdateEvent)
        requires
            old(self).wf(),
        ensures
            final(self).wf(),
            store_updated(old(self)@, final(self)@, dest@, event),
    {
        let ghost before = self.entries@;
        if let Some(i) = self.position(dest) {
            update_entry(&mut self.entries[i], event);
            proof {
                self.contents@ = self.contents@.insert(
                    dest@,
                    (self.entries@[i as int].1, self.entries@[i as int].2),
                );
                assert forall|j: int| 0 <= j < before.len() implies #[trigger] self.entries@[j].0@
                    == before[j].0@ by {}
                assert forall|k: Seq<char>| #[trigger]
                    self.contents@.contains_key(k) implies exists|j: int|
                    0 <= j < self.entries@.len() && #[trigger] self.entries@[j].0@ == k by {
                    let j = choose|j: int| 0 <= j < before.len() && #[trigger] before[j].0@ == k;
                    assert(self.entries@[j].0@ == k);
                }
                assert(self@.dom() =~= old(self)@.dom());
            }
        }
    }

    /// Applies one event to the store.
    pub fn apply_event(&mut self, event: Event)
        requires
            old(self).wf(),
        ensures
            final(self).wf(),
            store_step(old(self)@, final(self)@, event),
    {
        match event {
            Event::Add(address, item) => self.new_item(address, *item),
            Event::Update(address, update) => self.apply_update_event(address.as_str(), update),
            Event::Remove(address) => self.remove_item(address.as_str()),
        }
    }

    /// Applies `events` to the store in order.
    pub fn apply_events(&mut self, events: Vec<Event>)
        requires
            old(self).wf(),
        ensures
            final(self).wf(),
            store_run(old(self)@, final(self)@, events@),
    {
        let ghost start = self@;
        let ghost all = events@;
        let mut rest = events;
        let mut done: Ghost<Seq<Event>> = Ghost(Seq::empty());
        while rest.len() > 0
            invariant
                self.wf(),
                done@ + rest@ == all,
                store_run(start, self@, done@),
            decreases rest@.len(),
        {
            let ghost mid = self@;
            let ghost before_rest = rest@;
            let event = rest.remove(0);
            self.apply_event(event);
            proof {
                let next = done@.push(event);
                assert(next.drop_last() =~= done@);
                assert(store_step(mid, self@, next.last()));
                assert(next + rest@ =~= all) by {
                    assert(before_rest =~= seq![event] + rest@);
                }
                done@ = next;
            }
        }
        proof {
            assert(done@ == all);
        }
    }

}

/// `new` is `old` with every property that `u` sets replaced by its value,
/// and every other property kept.
pub open spec fn item_updated(old: MenuItem, new: MenuItem, u: MenuItemUpdate) -> bool {
    &&& new.id == old.id
    &&& new.menu_type == old.menu_type
    &&& new.shortcut == old.shortcut
    &&& new.toggle_type == old.toggle_type
    &&& new.children_display == old.children_display
    &&& new.submenu == old.submenu
    &&& new.label == (if u.label is Some { u.label->0 } else { old.label })
    &&& new.enabled == (if u.enabled is Some { u.enabled->0 } else { old.enabled })
    &&& new.visible == (if u.visible is Some { u.visible->0 } else { old.visible })
    &&& new.icon_name == (if u.icon_name is Some { u.icon_name->0 } else { old.icon_name })
    &&& new.icon_data.deep_view() == (if u.icon_data is Some {
        u.icon_data->0.deep_view()
    } else {
        old.icon_data.deep_view()
    })
    &&& new.toggle_state == (if u.toggle_state is Some {
        u.toggle_state->0
    } else {
        old.toggle_state
    })
    &&& new.disposition == (if u.disposition is Some {
        u.disposition->0
    } else {
        old.disposition
    })
}

/// The update that applying `a` and then `b` amounts to: what `b` sets wins.
pub open spec fn combine_updates(a: MenuItemUpdate, b: MenuItemUpdate) -> MenuItemUpdate {
    MenuItemUpdate {
        label: if b.label is Some { b.label } else { a.label },
        enabled: if b.enabled is Some { b.enabled } else { a.enabled },
        visible: if b.visible is Some { b.visible } else { a.visible },
        icon_name: if b.icon_name is Some { b.icon_name } else { a.icon_name },
        icon_data: if b.icon_data is Some { b.icon_data } else { a.icon_data },
        toggle_state: if b.toggle_state is Some { b.toggle_state } else { a.toggle_state },
        disposition: if b.disposition is Some { b.disposition } else { a.disposition },
    }
}

/// Applying one update and then another patches an item as their combination
/// does.
pub proof fn lemma_item_updated_chain(
    a: MenuItem,
    b: MenuItem,
    c: MenuItem,
    u1: MenuItemUpdate,
    u2: MenuItemUpdate,
)
    requires
        item_updated(a, b, u1),
        item_updated(b, c, u2),
    ensures
        item_updated(a, c, combine_updates(u1, u2)),
{
}

/// The update that changes nothing.
pub open spec fn no_update() -> MenuItemUpdate {
    MenuItemUpdate {
        label: None,
        enabled: None,
        visible: None,
        icon_name: None,
        icon_data: None,
        toggle_state: None,
        disposition: None,
    }
}

/// What the diffs naming `id` change, folded in order.
pub open spec fn update_for(diffs: Seq<MenuDiff>, id: i32) -> MenuItemUpdate
    decreases diffs.len(),
{
    if diffs.len() == 0 {
        no_update()
    } else {
        let before = update_for(diffs.drop_last(), id);
        if diffs.last().id == id {
            combine_updates(before, diffs.last().update)
        } else {
            before
        }
    }
}

/// The menu `new` is `old` with each top-level item patched by the diffs that
/// name its id.
pub open spec fn menu_patched(old: TrayMenu, new: TrayMenu, diffs: Seq<MenuDiff>) -> bool {
    &&& new.id == old.id
    &&& new.submenus@.len() == old.submenus@.len()
    &&& forall|k: int|
        0 <= k < old.submenus@.len() ==> item_updated(
            #[trigger] old.submenus@[k],
            new.submenus@[k],
            update_for(diffs, old.submenus@[k].id),
        )
}

/// Folds every diff, in order, into the top-level menu item with the same id.
pub fn apply_menu_diffs(tray_menu: &mut TrayMenu, diffs: &[MenuDiff])
    ensures
        menu_patched(*old(tray_menu), *final(tray_menu), diffs@),
{
    let ghost start = *tray_menu;
    let n = tray_menu.submenus.len();
    let mut i: usize = 0;
    while i < n
        invariant
            n == start.submenus@.len(),
            i <= n,
            tray_menu.id == start.id,
            tray_menu.submenus@.len() == n,
            forall|k: int|
                0 <= k < i ==> item_updated(
                    #[trigger] start.submenus@[k],
                    tray_menu.submenus@[k],
                    update_for(diffs@, start.submenus@[k].id),
                ),
            forall|k: int| i <= k < n ==> #[trigger] tray_menu.submenus@[k] == start.submenus@[k],
        decreases n - i,
    {
        let id = tray_menu.submenus[i].id;
        let mut j: usize = 0;
        while j < diffs.len()
            invariant
                n == start.submenus@.len(),
                i < n,
                id == start.submenus@[i as int].id,
                j <= diffs@.len(),
                tray_menu.id == start.id,
                tray_menu.submenus@.len() == n,
                forall|k: int|
                    0 <= k < i ==> item_updated(
                        #[trigger] start.submenus@[k],
                        tray_menu.submenus@[k],
                        update_for(diffs@, start.submenus@[k].id),
                    ),
                forall|k: int|
                    i < k < n ==> #[trigger] tray_menu.submenus@[k] == start.submenus@[k],
                item_updated(
                    start.submenus@[i as int],
                    tray_menu.submenus@[i as int],
                    update_for(diffs@.subrange(0, j as int), id),
                ),
            decreases diffs@.len() - j,
        {
            assert(diffs@.subrange(0, j + 1).drop_last() == diffs@.subrange(0, j as int));
            let ghost before = tray_menu.submenus@[i as int];
            if diffs[j].id == id {
                apply_menu_item_diff(&mut tray_menu.submenus[i], &diffs[j].update);
                proof {
                    lemma_item_updated_chain(
                        start.submenus@[i as int],
                        before,
                        tray_menu.submenus@[i as int],
                        update_for(diffs@.subrange(0, j as int), id),
                        diffs@[j as int].update,
                    );
                }
            }
            j = j + 1;
        }
        assert(diffs@.subrange(0, diffs@.len() as int) == diffs@);
        i = i + 1;
    }
}

/// Folds an update into one stored entry.
fn update_entry(entry: &mut (String, StatusNotifierItem, Option<TrayMenu>), event: UpdateEvent)
    ensures
        final(entry).0 == old(entry).0,
        entry_updated((old(entry).1, old(entry).2), (final(entry).1, final(entry).2), event),
{
    match event {
        UpdateEvent::AttentionIcon(name) => entry.1.attention_icon_name = name,
        UpdateEvent::Icon { icon_name, icon_pixmap } => {
            entry.1.icon_name = icon_name;
            entry.1.icon_pixmap = if icon_pixmap.len() == 0 {
                None
            } else {
                Some(icon_pixmap)
            };
        },
        UpdateEvent::OverlayIcon(name) => entry.1.overlay_icon_name = name,
        UpdateEvent::Status(status) => entry.1.status = status,
        UpdateEvent::Title(title) => entry.1.title = title,
        UpdateEvent::Tooltip(tool_tip) => entry.1.tool_tip = tool_tip,
        UpdateEvent::Menu(menu) => entry.2 = Some(menu),
        UpdateEvent::MenuConnect(path) => entry.1.menu = Some(path),
        UpdateEvent::MenuDiff(diffs) => {
            if let Some(menu) = &mut entry.2 {
                apply_menu_diffs(menu, diffs.as_slice());
            }
        },
    }
}

/// A copy of an optional string.
fn copy_text(t: &Option<String>) -> (r: Option<String>)
    ensures
        r == *t,
{
    match t {
        Some(s) => Some(s.clone()),
        None => None,
    }
}

/// A copy of optional bytes.
fn copy_bytes(b: &Option<Vec<u8>>) -> (r: Option<Vec<u8>>)
    ensures
        r.deep_view() == b.deep_view(),
{
    match b {
        Some(v) => {
            let c = v.clone();
            assert(c@ =~= v@);
            assert(c.deep_view() =~= v.deep_view());
            Some(c)
        },
        None => None,
    }
}

/// Sets on `menu_item` every property that `update` carries.
pub fn apply_menu_item_diff(menu_item: &mut MenuItem, update: &MenuItemUpdate)
    ensures
        item_updated(*old(menu_item), *final(menu_item), *update),
{
    if let Some(label) = &update.label {
        menu_item.label = copy_text(label);
    }
    if let Some(enabled) = update.enabled {
        menu_item.enabled = enabled;
    }
    if let Some(visible) = update.visible {
        menu_item.visible = visible;
    }
    if let Some(icon_name) = &update.icon_name {
        menu_item.icon_name = copy_text(icon_name);
    }
    if let Some(icon_data) = &update.icon_data {
        menu_item.icon_data = copy_bytes(icon_data);
    }
    if let Some(toggle_state) = update.toggle_state {
        menu_item.toggle_state = toggle_state;
    }
    if let Some(disposition) = update.disposition {
        menu_item.disposition = disposition;
    }

}

} // verus!
