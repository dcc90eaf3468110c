pub mod event_bus;
pub mod state_store;
pub mod hotkey_dispatcher;
pub mod config;
