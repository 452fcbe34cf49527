[package]
name = "termusic"
version = "0.1.0"
edition = "2021"
publish = false

[dependencies]
ahash = "0.8"
anyhow = "1"
fragile = "2"
glib = "0.15"
gstreamer = "0.18"
gstreamer-player = "0.18"
id3 = "1"
image = "0.23"
reqwest = { version = "0.11", features = ["blocking"] }
serde = { version = "1", features = ["derive"] }
serde_json = "1"
tui-realm-stdlib = "1"
tuirealm = "1"
unicode-truncate = "0.2"
ytd-rs = "0.1"
