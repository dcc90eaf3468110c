pub mod config;
pub mod feature;
