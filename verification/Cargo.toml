[package]
name = "aliceandbob"
version = "0.1.0"
edition = "2021"
publish = false

[dependencies]
serde_json = "1"
jsonschema = { version = "*", default-features = false }
serde = { version = "1", features = ["derive"] }
anyhow = "1"
tokio = { version = "1", features = ["full"] }
axum = "*"
reqwest = { version = "*", features = ["json"] }
sqlx = { version = "*", default-features = false, features = ["runtime-tokio", "sqlite"] }
toml = "*"
uuid = { version = "1", features = ["v4"] }
tracing = "0.1"
tracing-subscriber = { version = "0.3", features = ["env-filter"] }
tower-http = { version = "*", features = ["cors", "fs"] }
futures = "0.3"
async-stream = "0.3"
