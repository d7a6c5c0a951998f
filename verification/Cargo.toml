[package]
name = "reika_printer"
version = "0.1.0"
edition = "2021"
publish = false

[dependencies]
chrono = "0.4"
escpos = "*"
log = "0.4"
reqwest = { version = "0.12", default-features = false, features = ["json", "rustls-tls"] }
rusb = "0.9"
serde = { version = "1", features = ["derive"] }
serde_json = "1"
tokio = { version = "1", features = ["macros", "rt", "sync", "time"] }
toml = "0.8"
warp = { version = "0.3", default-features = false }
