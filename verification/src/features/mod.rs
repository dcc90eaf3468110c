pub mod command;
pub mod actions;
pub mod daemons;
pub mod ipc;
pub mod workspaces;
pub mod wm;
pub mod keybinds;
pub mod vpn;
pub mod triggers;
