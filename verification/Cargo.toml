[package]
name = "roster_ingest"
version = "0.1.0"
edition = "2021"
publish = false

[dependencies]
calamine = "*"
chrono = "0.4"
anyhow = "1"
async-trait = "0.1"
axum = { version = "0.8", features = ["multipart"] }
dotenvy = "0.15"
sanitize-filename = "*"
sea-orm = { version = "*", default-features = false, features = ["macros", "with-chrono", "with-json"] }
sea-orm-migration = { version = "*", default-features = false }
serde = { version = "1", features = ["derive"] }
tokio = { version = "1", features = ["full"] }
tokio-util = { version = "0.7", features = ["io"] }
tower-http = { version = "0.6", features = ["cors"] }
tracing-subscriber = "0.3"
