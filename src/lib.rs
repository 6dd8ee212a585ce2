//! A system tray bridge: it presents a status icon with a fixed two-item
//! menu and turns each activation into a message on the application's
//! event channel.

pub mod message;
pub mod outside;
pub mod laws;
pub mod tray;
