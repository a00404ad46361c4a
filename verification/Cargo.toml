[package]
name = "ventil"
version = "0.1.0"
edition = "2021"
publish = false

[dependencies]
async-trait = "=0.1.92"
rocket = { version = "=0.5.2", features = ["json"] }
sea-orm = { version = "=1.1.20", features = ["sqlx-sqlite", "runtime-tokio", "macros"] }
sea-orm-migration = { version = "=1.1.20", default-features = false, features = ["sqlx-sqlite", "runtime-tokio"] }
tokio = { version = "=1.54.1", features = ["sync"] }
utoipa = { version = "=5.5.0", features = ["rocket_extras"] }
