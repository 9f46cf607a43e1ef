[package]
name = "cosmic_bing_wallpaper"
version = "0.1.0"
edition = "2021"
publish = false

[dependencies]
chrono = "=0.4.45"
dirs = "5"
serde = { version = "1", features = ["derive"] }
serde_json = "1"
tokio = { version = "1", features = ["rt-multi-thread", "sync", "time", "macros"] }
zbus = "=4.4.0"
zvariant = "=4.2.0"
reqwest = { version = "0.12", default-features = false, features = ["json"] }
