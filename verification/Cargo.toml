[package]
name = "adw_bridge"
version = "0.1.0"
edition = "2021"
publish = false

[dependencies]
libadwaita = "0.5.3"
