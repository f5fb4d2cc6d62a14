//! Live-state reconciliation for a desktop status bar.
//!
//! Each module models one backend driver as a state machine over plain
//! values: events arrive from an external source (a line-oriented socket,
//! a two-phase object protocol, a node/property bus), and the machine
//! reduces them into a consistent snapshot a widget can render at any
//! instant. The transport code that produces the events lives outside
//! the library; everything here is verified.

pub mod assoc;
pub mod audio;
pub mod bluetooth;
pub mod cell;
pub mod compositor;
pub mod config;
pub mod hyprland;
pub mod power;
pub mod power_menu;
pub mod power_profile;
pub mod text;
