[package]
name = "pgmcp_db"
version = "0.1.0"
edition = "2021"
publish = false

[dependencies]
chrono = { version = "=0.4.45", features = ["serde"] }
dashmap = "=6.2.1"
pgvector = { version = "=0.4.2", features = ["sqlx"] }
serde = { version = "1", features = ["derive"] }
serde_json = "=1.0.154"
sha2 = "=0.10.9"
sqlx = { version = "0.9", default-features = false, features = ["runtime-tokio", "postgres", "macros", "derive", "chrono", "uuid", "json"] }
thiserror = "2"
uuid = { version = "1", features = ["serde", "v4"] }
xxhash-rust = { version = "=0.8.19", features = ["xxh3"] }
