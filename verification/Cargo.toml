[package]
name = "sdshout"
version = "0.1.0"
edition = "2021"
publish = false

[dependencies]
dbus = { version = "=0.9.12", features = ["vendored"] }
eyre = "=0.6.14"
serde = { version = "=1.0.229", features = ["derive"] }
toml = "=0.8.23"
