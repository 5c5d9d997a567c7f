[package]
name = "lake_indexer"
version = "0.1.0"
edition = "2021"
publish = false

[dependencies]
anyhow = "1"
bigdecimal = "0.3"
cached = { version = "0.59", default-features = false }
clap = { version = "3.2", features = ["derive"] }
dotenv = "0.15"
futures = "0.3"
hex = "0.4"
near-crypto = "0.37.4"
near-indexer-primitives = "0.37.4"
serde_json = "1"
sqlx = { version = "0.7", default-features = false, features = ["mysql", "bigdecimal", "runtime-tokio"] }
tokio = { version = "1", features = ["sync", "time", "macros", "rt-multi-thread"] }
tokio-stream = "0.1"
tracing = "0.1"
tracing-subscriber = { version = "0.3", features = ["env-filter"] }
