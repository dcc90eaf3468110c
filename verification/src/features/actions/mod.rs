pub mod config;
pub mod registry;
pub mod feature;
pub mod event;
