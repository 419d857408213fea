[package]
name = "todo_gateway"
version = "0.1.0"
edition = "2021"
publish = false

[dependencies]
chrono = "*"
axum = "0.8"
tokio = { version = "*", features = ["full"] }
tonic = "*"
prost = "*"
diesel = { version = "*", features = ["sqlite", "r2d2", "chrono"] }
diesel_migrations = "*"
clap = { version = "*", features = ["derive", "env"] }
dotenvy = "*"
tracing = "*"
tracing-subscriber = "*"
serde = { version = "*", features = ["derive"] }
serde_derive = "*"
thiserror = "*"
