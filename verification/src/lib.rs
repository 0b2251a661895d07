//! A verified core for a desktop application shell: a window/tray lifecycle
//! controller that coordinates visibility across a main window, an optional
//! splash screen and a system tray icon, together with the bridge commands
//! the shell exposes to its hosted web content.

pub mod api;
pub mod commands;
pub mod lifecycle;
pub mod registry;
pub mod text;
pub mod tray;
