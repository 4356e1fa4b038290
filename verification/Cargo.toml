[package]
name = "buttondeck"
version = "0.1.0"
edition = "2021"
publish = false

[dependencies]
hidapi = "*"
indexmap = { version = "2", features = ["serde"] }
log = "0.4"
midir = "*"
serde = { version = "1", features = ["derive"] }
serde_derive = "1"
serde_json = "1"
streamdeck = "*"
thiserror = "*"
wmidi = "4"
