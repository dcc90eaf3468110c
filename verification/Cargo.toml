[package]
name = "de_configurator"
version = "0.1.0"
edition = "2021"
publish = false

[dependencies]
kdl = { version = "=6.7.1", features = ["v1-fallback"] }
global-hotkey = "=0.9.0"
notify-rust = "=4.18.2"
reqwest = { version = "=0.13.5", default-features = false, features = ["json"] }
serde = { version = "=1.0.229", features = ["derive"] }
tokio = { version = "=1.54.1", features = ["full"] }
