pub mod config;
pub mod state;
pub mod manager;
pub mod notifier;
pub mod event;
