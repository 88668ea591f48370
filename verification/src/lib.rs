//! The verified core of a WireGuard desktop manager.

pub mod app;
pub mod autostart;
pub mod config;
pub mod error;
pub mod helper;
pub mod ip;
pub mod net;
pub mod notify;
pub mod order;
pub mod paths;
pub mod persist;
pub mod public_ip;
pub mod qr;
pub mod server;
pub mod settings;
pub mod single_instance;
pub mod stats;
pub mod table;
pub mod text;
pub mod text_laws;
pub mod tray;
pub mod wg;
