[package]
name = "inventory_core"
version = "0.1.0"
edition = "2021"
publish = false

[dependencies]
rusqlite = { version = "*", features = ["bundled"] }
r2d2 = "*"
r2d2_sqlite = "*"
serde = { version = "*", features = ["derive"] }
serde_json = "*"
csv = "*"
axum = { version = "0.7", features = ["multipart"] }
tokio = { version = "*", features = ["macros", "rt-multi-thread", "net"] }
tower-http = { version = "*", features = ["cors"] }
