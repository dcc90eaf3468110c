//! A desktop-environment configuration daemon's core: configuration parsing,
//! the event model, and the decision logic of its features.

pub mod text;
pub mod document;
pub mod base;
pub mod features;
pub mod hotkey;
pub mod config;
pub mod notifier;
pub mod vpn;
pub mod event;
pub mod app;
