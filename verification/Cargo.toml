[package]
name = "syndicator"
version = "0.1.0"
edition = "2021"
publish = false

[dependencies]
rss = "*"
atom_syndication = "*"
chrono = "*"
rusqlite = { version = "*", features = ["bundled"] }
mio = { version = "*", features = ["os-poll"] }
toml = "*"
serde = { version = "*", features = ["derive"] }
clap = "*"
app_dirs = "*"
log = "*"
env_logger = "*"
