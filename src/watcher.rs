//! The state of the `org.kde.StatusNotifierWatcher` service: which hosts and
//! items are registered, and how the name a peer registers with becomes the
//! key it is known by.
use crate::client::is_address_split;
use crate::error::Error;
use crate::names::ITEM_OBJECT;
use crate::text::{starts_with_char, str_eq};
use vstd::prelude::*;

verus! {

/// What a string is as a D-Bus bus name.
#[derive(Debug, Clone, Copy, PartialEq, Eq, Structural)]
pub enum BusNameKind {
    /// A unique connection name such as `:1.42`.
    Unique,
    /// A well-known name such as `org.kde.StatusNotifierWatcher`.
    WellKnown,
    /// Not a valid bus name.
    Invalid,
}

/// What the D-Bus naming rules make of `s`.
pub uninterp spec fn bus_name_kind(s: Seq<char>) -> BusNameKind;

/// Relies on `zbus::names::BusName::try_from(&str)`, which validates `s`
/// against the D-Bus rules for unique names, then for well-known names.
#[verifier::external_body]
fn classify_bus_name(s: &str) -> (r: BusNameKind)
    ensures
        r == bus_name_kind(s@),
{
    match zbus::names::BusName::try_from(s) {
        Ok(zbus::names::BusName::Unique(_)) => BusNameKind::Unique,
        Ok(zbus::names::BusName::WellKnown(_)) => BusNameKind::WellKnown,
        Err(_) => BusNameKind::Invalid,
    }
}

/// Where a registered service lives on the bus.
#[derive(Debug, Clone, PartialEq, Eq)]
pub enum ServiceName {
    /// A unique bus name and the object path on that connection.
    Unique(String, String),
    /// A well-known name whose owner is still to be looked up; its object
    /// path is the default one.
    WellKnown(String),
}

/// `r` is how the `service` argument of a registration, sent by `sender`,
/// is read: a bare object path belongs to the sender, a unique name is taken
/// as it is with the default object path, a well-known name is to be
/// resolved, and anything else is rejected.
pub open spec fn service_parsed(
    service: Seq<char>,
    sender: Option<String>,
    r: Result<ServiceName, Error>,
) -> bool {
    if service.len() > 0 && service[0] == '/' {
        match sender {
            Some(s) => r matches Ok(ServiceName::Unique(name, path)) && name == s && path@
                == service,
            None => r matches Err(Error::InvalidArgs(_)),
        }
    } else {
        match bus_name_kind(service) {
            BusNameKind::Unique => r matches Ok(ServiceName::Unique(name, path)) && name@
                == service && path@ == ITEM_OBJECT@,
            BusNameKind::WellKnown => r matches Ok(ServiceName::WellKnown(name)) && name@
                == service,
            BusNameKind::Invalid => r matches Err(Error::InvalidArgs(_)),
        }
    }
}

/// Reads the `service` argument of a registration sent by `sender`: a bare
/// object path, a unique bus name or a well-known name.
pub fn parse_service(service: &str, sender: Option<String>) -> (r: Result<ServiceName, Error>)
    ensures
        service_parsed(service@, sender, r),
{
    if starts_with_char(service, '/') {
        match sender {
            Some(s) => Ok(ServiceName::Unique(s, service.to_owned())),
            None => Err(Error::InvalidArgs("Unknown bus address")),
        }
    } else {
        match classify_bus_name(service) {
            BusNameKind::Unique => Ok(
                ServiceName::Unique(service.to_owned(), ITEM_OBJECT.to_owned()),
            ),
            BusNameKind::WellKnown => Ok(ServiceName::WellKnown(service.to_owned())),
            BusNameKind::Invalid => Err(Error::InvalidArgs("Invalid bus name")),
        }
    }
}

/// Where a well-known name lives once its owner is known: on the owner's
/// connection, at the default object path.
pub fn owned_by(owner: String) -> (r: (String, String))
    ensures
        r.0 == owner,
        r.1@ == ITEM_OBJECT@,
{
    (owner, ITEM_OBJECT.to_owned())
}

/// The key an item is registered under: its unique bus name followed by its
/// object path.
pub fn item_key(name: &str, path: &str) -> (r: String)
    ensures
        r@ == name@ + path@,
{
    name.to_owned().concat(path)
}

/// Splitting a registration key at its first `/` gives back the unique name
/// and the object path it was made of.
pub proof fn lemma_item_key_round_trip(
    name: Seq<char>,
    path: Seq<char>,
    destination: Seq<char>,
    object_path: Seq<char>,
)
    requires
        !name.contains('/'),
        path.len() > 0,
        path[0] == '/',
        is_address_split(name + path, destination, object_path),
    ensures
        destination == name,
        object_path == path,
{
    let key = name + path;
    assert(key[name.len() as int] == '/');
    assert(key.contains('/'));
    if destination.len() < name.len() {
        assert(key[destination.len() as int] == object_path[0]);
        assert(name.contains(key[destination.len() as int]));
    } else if destination.len() > name.len() {
        assert(destination[name.len() as int] == key[name.len() as int]);
        assert(destination.contains('/'));
    }
    assert(destination =~= key.subrange(0, name.len() as int));
    assert(name =~= key.subrange(0, name.len() as int));
    assert(object_path =~= key.subrange(name.len() as int, key.len() as int));
    assert(path =~= key.subrange(name.len() as int, key.len() as int));
}

/// The three shapes in which a peer may name itself agree: its bare default
/// object path sent from its unique name, its unique name, and a well-known
/// name that it owns all lead to the same unique name and object path.
pub proof fn lemma_service_shapes_agree(
    sender: String,
    well_known: Seq<char>,
    from_path: Result<ServiceName, Error>,
    from_unique: Result<ServiceName, Error>,
    from_well_known: Result<ServiceName, Error>,
    resolved: (String, String),
)
    requires
        bus_name_kind(sender@) == BusNameKind::Unique,
        sender@.len() > 0,
        sender@[0] == ':',
        bus_name_kind(well_known) == BusNameKind::WellKnown,
        well_known.len() > 0,
        well_known[0] != '/',
        service_parsed(ITEM_OBJECT@, Some(sender), from_path),
        service_parsed(sender@, None, from_unique),
        service_parsed(well_known, None, from_well_known),
        resolved.0 == sender && resolved.1@ == ITEM_OBJECT@,
    ensures
        from_path matches Ok(ServiceName::Unique(n, p)) && n@ == sender@ && p@ == ITEM_OBJECT@,
        from_unique matches Ok(ServiceName::Unique(n, p)) && n@ == sender@ && p@ == ITEM_OBJECT@,
        from_well_known matches Ok(ServiceName::WellKnown(n)) && n@ == well_known,
{
    reveal_strlit("/StatusNotifierItem");
}

/// A set of names, each held once, in order of registration.
#[derive(Debug)]
pub struct NameSet {
    names: Vec<String>,
}

impl View for NameSet {
    type V = Set<Seq<char>>;

    closed spec fn view(&self) -> Set<Seq<char>> {
        Set::new(|k: Seq<char>| exists|i: int| 0 <= i < self.names@.len() && #[trigger] self.names@[i]@ == k)
    }
}

impl NameSet {
    /// No name is held twice.
    pub closed spec fn wf(&self) -> bool {
        forall|i: int, j: int|
            0 <= i < j < self.names@.len() ==> #[trigger] self.names@[i]@ != #[trigger] self.names@[j]@
    }

    /// An empty set.
    pub fn new() -> (r: NameSet)
        ensures
            r.wf(),
            r@ == Set::<Seq<char>>::empty(),
    {
        let r = NameSet { names: Vec::new() };
        assert(r@ =~= Set::<Seq<char>>::empty());
        r
    }

    fn position(&self, name: &str) -> (r: Option<usize>)
        requires
            self.wf(),
        ensures
            r is Some <==> self@.contains(name@),
            r is Some ==> r->0 < self.names@.len() && self.names@[r->0 as int]@ == name@,
    {
        let mut i: usize = 0;
        while i < self.names.len()
            invariant
                i <= self.names@.len(),
                forall|k: int| 0 <= k < i ==> #[trigger] self.names@[k]@ != name@,
            decreases self.names@.len() - i,
        {
            if str_eq(self.names[i].as_str(), name) {
                return Some(i);
            }
            i = i + 1;
        }
        None
    }

    /// Whether `name` is held.
    pub fn contains(&self, name: &str) -> (r: bool)
        requires
            self.wf(),
        ensures
            r == self@.contains(name@),
    {
        self.position(name).is_some()
    }

    /// Whether no name is held.
    pub fn is_empty(&self) -> (r: bool)
        ensures
            r == (self@ == Set::<Seq<char>>::empty()),
    {
        if self.names.len() == 0 {
            assert(self@ =~= Set::<Seq<char>>::empty());
            true
        } else {
            assert(self@.contains(self.names@[0]@));
            false
        }
    }

    /// Adds `name`; returns whether it was new.
    pub fn insert(&mut self, name: String) -> (r: bool)
        requires
            old(self).wf(),
        ensures
            final(self).wf(),
            final(self)@ == old(self)@.insert(name@),
            r == !old(self)@.contains(name@),
    {
        if self.position(name.as_str()).is_some() {
            assert(self@ =~= self@.insert(name@));
            false
        } else {
            let ghost before = self.names@;
            let ghost key = name@;
            self.names.push(name);
            assert forall|k: Seq<char>| #[trigger] self@.contains(k) == old(self)@.insert(key).contains(k) by {
                if old(self)@.contains(k) && k != key {
                    let i = choose|i: int| 0 <= i < before.len() && #[trigger] before[i]@ == k;
                    assert(self.names@[i]@ == k);
                }
                if k == key {
                    assert(self.names@[before.len() as int]@ == k);
                }
                if self@.contains(k) {
                    let i = choose|i: int| 0 <= i < self.names@.len() && #[trigger] self.names@[i]@ == k;
                    if i < before.len() {
                        assert(before[i]@ == k);
                    }
                }
            }
            assert(self@ =~= old(self)@.insert(key));
            true
        }
    }

    /// Drops `name`; returns whether it was held.
    pub fn remove(&mut self, name: &str) -> (r: bool)
        requires
            old(self).wf(),
        ensures
            final(self).wf(),
            final(self)@ == old(self)@.remove(name@),
            r == old(self)@.contains(name@),
    {
        match self.position(name) {
            Some(i) => {
                let ghost before = self.names@;
                self.names.remove(i);
                assert forall|k: Seq<char>| #[trigger] self@.contains(k) == old(self)@.remove(name@).contains(k) by {
                    if old(self)@.contains(k) && k != name@ {
                        let j = choose|j: int| 0 <= j < before.len() && #[trigger] before[j]@ == k;
                        if j < i {
                            assert(self.names@[j]@ == k);
                        } else {
                            assert(self.names@[j - 1]@ == k);
                        }
                    }
                    if self@.contains(k) {
                        let j = choose|j: int| 0 <= j < self.names@.len() && #[trigger] self.names@[j]@ == k;
                        if j < i {
                            assert(before[j]@ == k);
                        } else {
                            assert(before[j + 1]@ == k);
                        }
                    }
                }
                assert(self@ =~= old(self)@.remove(name@));
                true
            },
            None => {
                assert(self@ =~= self@.remove(name@));
                false
            },
        }
    }

    /// The names, each once.
    pub fn to_vec(&self) -> (r: Vec<String>)
        requires
            self.wf(),
        ensures
            forall|i: int, j: int| 0 <= i < j < r@.len() ==> #[trigger] r@[i]@ != #[trigger] r@[j]@,
            forall|i: int| 0 <= i < r@.len() ==> self@.contains(#[trigger] r@[i]@),
            forall|k: Seq<char>| #[trigger] self@.contains(k) ==> exists|i: int| 0 <= i < r@.len() && #[trigger] r@[i]@ == k,
    {
        let mut r: Vec<String> = Vec::new();
        let mut i: usize = 0;
        while i < self.names.len()
            invariant
                self.wf(),
                i <= self.names@.len(),
                r@.len() == i,
                forall|k: int| 0 <= k < i ==> #[trigger] r@[k] == self.names@[k],
            decreases self.names@.len() - i,
        {
            r.push(self.names[i].clone());
            i = i + 1;
        }
        assert forall|k: int| 0 <= k < r@.len() implies self@.contains(#[trigger] r@[k]@) by {
            assert(self.names@[k]@ == r@[k]@);
        }
        assert forall|k: Seq<char>| #[trigger] self@.contains(k) implies exists|i: int| 0 <= i < r@.len() && #[trigger] r@[i]@ == k by {
            let i = choose|i: int| 0 <= i < self.names@.len() && #[trigger] self.names@[i]@ == k;
            assert(r@[i]@ == k);
        }
        r
    }
}

/// What registering a host did.
#[derive(Debug, Clone, Copy, PartialEq, Eq, Structural)]
pub enum HostRegistration {
    /// The host was already registered: nothing to announce.
    AlreadyKnown,
    /// The host is new; `first` tells whether no host was registered before.
    Added { first: bool },
}

/// The hosts and items that registered with the watcher service.
#[derive(Debug)]
pub struct StatusNotifierWatcher {
    hosts: NameSet,
    items: NameSet,
}

impl StatusNotifierWatcher {
    /// Both sets hold each name once.
    pub closed spec fn wf(&self) -> bool {
        self.hosts.wf() && self.items.wf()
    }

    /// The unique bus names of the registered hosts.
    pub closed spec fn hosts(&self) -> Set<Seq<char>> {
        self.hosts@
    }

    /// The keys (`<unique-bus-name><object-path>`) of the registered items.
    pub closed spec fn items(&self) -> Set<Seq<char>> {
        self.items@
    }

    /// A watcher with no host and no item.
    pub fn new() -> (r: StatusNotifierWatcher)
        ensures
            r.wf(),
            r.hosts() == Set::<Seq<char>>::empty(),
            r.items() == Set::<Seq<char>>::empty(),
    {
        StatusNotifierWatcher { hosts: NameSet::new(), items: NameSet::new() }
    }

    /// Registers the host at unique bus name `service`. A known host changes
    /// nothing; a new one is to be announced, and when it is the first, the
    /// `IsStatusNotifierHostRegistered` property is to be announced too.
    pub fn register_status_notifier_host(&mut self, service: String) -> (r: HostRegistration)
        requires
            old(self).wf(),
        ensures
            final(self).wf(),
            final(self).items() == old(self).items(),
            final(self).hosts() == old(self).hosts().insert(service@),
            old(self).hosts().contains(service@) ==> r == HostRegistration::AlreadyKnown,
            !old(self).hosts().contains(service@) ==> r == (HostRegistration::Added {
                first: old(self).hosts() == Set::<Seq<char>>::empty(),
            }),
    {
        let was_empty = self.hosts.is_empty();
        if self.hosts.insert(service) {
            HostRegistration::Added { first: was_empty }
        } else {
            HostRegistration::AlreadyKnown
        }
    }

    /// Forgets the host at `service`, whose connection left the bus; returns
    /// whether that emptied the set of hosts.
    pub fn remove_status_notifier_host(&mut self, service: &str) -> (r: bool)
        requires
            old(self).wf(),
        ensures
            final(self).wf(),
            final(self).items() == old(self).items(),
            final(self).hosts() == old(self).hosts().remove(service@),
            r == (old(self).hosts().contains(service@) && final(self).hosts() == Set::<
                Seq<char>,
            >::empty()),
    {
        let removed = self.hosts.remove(service);
        removed && self.hosts.is_empty()
    }

    /// Whether any host is registered.
    pub fn is_status_notifier_host_registered(&self) -> (r: bool)
        ensures
            r == (self.hosts() != Set::<Seq<char>>::empty()),
    {
        !self.hosts.is_empty()
    }

    /// Registers the item with key `item`; returns whether it is new and so
    /// to be announced.
    pub fn register_status_notifier_item(&mut self, item: String) -> (r: bool)
        requires
            old(self).wf(),
        ensures
            final(self).wf(),
            final(self).hosts() == old(self).hosts(),
            final(self).items() == old(self).items().insert(item@),
            r == !old(self).items().contains(item@),
    {
        self.items.insert(item)
    }

    /// Forgets the item with key `item`; returns whether it was registered.
    pub fn unregister_status_notifier_item(&mut self, item: &str) -> (r: bool)
        requires
            old(self).wf(),
        ensures
            final(self).wf(),
            final(self).hosts() == old(self).hosts(),
            final(self).items() == old(self).items().remove(item@),
            r == old(self).items().contains(item@),
    {
        self.items.remove(item)
    }

    /// The keys of the registered items, each once.
    pub fn registered_status_notifier_items(&self) -> (r: Vec<String>)
        requires
            self.wf(),
        ensures
            forall|i: int, j: int| 0 <= i < j < r@.len() ==> #[trigger] r@[i]@ != #[trigger] r@[j]@,
            forall|i: int| 0 <= i < r@.len() ==> self.items().contains(#[trigger] r@[i]@),
            forall|k: Seq<char>| #[trigger] self.items().contains(k) ==> exists|i: int| 0 <= i < r@.len() && #[trigger] r@[i]@ == k,
    {
        self.items.to_vec()
    }

    /// The version of the protocol served: 0.
    pub fn protocol_version(&self) -> (r: i32)
        ensures
            r == 0,
    {
        0
    }
}

} // verus!
