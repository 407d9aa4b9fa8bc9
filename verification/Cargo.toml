[package]
name = "danavi"
version = "0.1.0"
edition = "2021"
publish = false

[dependencies]
anyhow = "*"
crossterm = "*"
dirs = "*"
md5 = "*"
rand = "0.8"
ratatui = "*"
reqwest = { version = "*", default-features = false, features = ["json"] }
rodio = "*"
serde = { version = "*", features = ["derive"] }
serde_json = "*"
tokio = { version = "*", features = ["rt-multi-thread", "macros", "sync", "time"] }
url = "*"
zbus = { version = "*", default-features = false, features = ["tokio"] }
zvariant = "*"
