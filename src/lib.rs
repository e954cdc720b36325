//! Decision logic of a desktop host shell: the tray menu and its event
//! bridge, the window chrome chosen per operating system and build mode,
//! and the native translucency effect chosen per operating system.

pub mod text;
pub mod menu;
pub mod platform;
pub mod effect;
pub mod chrome;
pub mod bridge;
