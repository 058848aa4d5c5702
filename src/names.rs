//! Well-known names and object paths of the protocols.
use crate::text::{decimal, push_decimal};
use vstd::prelude::*;

verus! {

/// The well-known bus name of the watcher service.
pub const WATCHER_BUS: &'static str = "org.kde.StatusNotifierWatcher";

/// The object path the watcher is served at.
pub const WATCHER_OBJECT: &'static str = "/StatusNotifierWatcher";

/// The object path of an item that gave only its bus name.
pub const ITEM_OBJECT: &'static str = "/StatusNotifierItem";


/// The prefix of the well-known names that hosts take.
pub const HOST_PREFIX: &'static str = "org.freedesktop.StatusNotifierHost-";

/// The well-known name that a host of process `pid` asks for at its
/// `attempt`-th try: `org.freedesktop.StatusNotifierHost-<pid>-<attempt>`.
pub fn host_name(pid: u32, attempt: u32) -> (r: String)
    ensures
        r@ == HOST_PREFIX@ + decimal(pid as nat) + seq!['-'] + decimal(attempt as nat),
{
    let mut name = HOST_PREFIX.to_owned();
    push_decimal(&mut name, pid);
    name.append("-");
    proof {
        reveal_strlit("-");
    }
    push_decimal(&mut name, attempt);
    name
}

} // verus!
