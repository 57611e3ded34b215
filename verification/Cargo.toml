[package]
name = "mcman"
version = "0.1.0"
edition = "2021"
publish = false

[dependencies]
anyhow = "*"
async-trait = "*"
clap = { version = "*", features = ["derive"] }
confique = "*"
console = "*"
dialoguer = "*"
glob = "*"
indexmap = "*"
indicatif = "*"
notify-debouncer-full = "*"
pathdiff = "*"
regex = "*"
reqwest = { version = "*", default-features = false, features = ["json"] }
serde = { version = "*", features = ["derive"] }
serde_json = "*"
tempfile = "*"
thiserror = "*"
tokio = { version = "*", features = ["macros", "rt-multi-thread", "process", "io-util", "io-std", "fs", "sync", "time", "signal"] }
toml = "*"
walkdir = "*"
zip = { version = "*", default-features = false, features = ["deflate"] }
