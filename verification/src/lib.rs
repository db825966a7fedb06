//! Klippo: the verified core of a Klipper-style clipboard history manager.

pub mod actions;
pub mod capture;
pub mod client;
pub mod config;
pub mod daemon;
pub mod dbus;
pub mod error;
pub mod model;
pub mod paths;
pub mod pattern;
pub mod qr;
pub mod search;
pub mod setup;
pub mod store;
pub mod text;
pub mod ui;
