//! Observing the desktop system tray over D-Bus: the `StatusNotifierItem`,
//! `StatusNotifierWatcher` and `DBusMenu` protocols, as values and as the
//! decisions that drive the bus.
pub mod client;
pub mod data;
pub mod error;
pub mod item;
pub mod menu;
pub mod names;
pub mod text;
pub mod value;
pub mod watcher;
