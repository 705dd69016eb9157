[package]
name = "rf433"
version = "0.1.0"
edition = "2021"
publish = false

[dependencies]
log = "*"
rppal = "*"
rusqlite = { version = "*", features = ["bundled"] }
serde = { version = "*", features = ["derive"] }
ureq = "*"
