[package]
name = "chatcore"
version = "0.1.0"
edition = "2021"
publish = false

[dependencies]
axum = { version = "*", features = ["ws"] }
tokio = { version = "*", features = ["rt-multi-thread", "macros", "sync"] }
futures = "*"
serde = { version = "*", features = ["derive"] }
serde_json = "*"
uuid = { version = "*", features = ["v4"] }
sqlx = { version = "*", default-features = false, features = ["runtime-tokio", "postgres", "uuid", "time"] }
time = { version = "*", features = ["formatting"] }
