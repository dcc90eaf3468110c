pub mod config;
pub mod event;
pub mod manager;
pub mod notifier;
pub mod feature;
