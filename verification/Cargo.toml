[package]
name = "pg_search"
version = "0.1.0"
edition = "2021"
publish = false

[dependencies]
anyhow = "1"
bincode = "1"
pgrx = { version = "0.12", features = ["pg16"] }
reqwest = { version = "0.12", default-features = false, features = ["blocking"] }
rustc-hash = "2"
serde = { version = "1", features = ["derive"] }
serde_json = "1"
tantivy = "0.22"
thiserror = "1"
tiny_http = "0.12"
tracing = "0.1"
