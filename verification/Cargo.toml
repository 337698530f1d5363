[package]
name = "file_search"
version = "0.1.0"
edition = "2021"
publish = false

[dependencies]
bincode = "=2.0.1"
clap = { version = "=4.6.7", features = ["derive"] }
redb = "=2.6.4"
serde = { version = "=1.0.229", features = ["derive"] }
serde_json = "=1.0.154"
tantivy = "=0.24.2"
xxhash-rust = { version = "=0.8.19", features = ["xxh3"] }

[dev-dependencies]
tempfile = "=3.27.0"
