[package]
name = "pomd"
version = "0.1.0"
edition = "2021"
publish = false

[dependencies]
pausable_clock = "*"
notify-rust = { version = "*", default-features = false, features = ["z"] }
serde = { version = "*", features = ["derive"] }
confy = "*"
zbus = "*"
async-std = { version = "*", features = ["attributes"] }
