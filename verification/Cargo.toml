[package]
name = "cargo_pod"
version = "0.1.0"
edition = "2021"
publish = false

[dependencies]
regex = "*"
heck = "0.3"
cargo_metadata = "*"
gumdrop = "*"
serde = { version = "*", features = ["derive"] }
serde_json = "*"
dircpy = "*"
glob = "*"
globset = "*"
jwalk = "*"
tempfile = "*"
log = "*"
env_logger = "*"
tokio = { version = "*", features = ["rt-multi-thread", "macros"] }
reqwest = { version = "*", default-features = false, features = ["json"] }
