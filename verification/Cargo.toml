[package]
name = "protocol_z_cash"
version = "0.1.0"
edition = "2021"
publish = false

[dependencies]
axum = "*"
pin-project-lite = "*"
serde = { version = "*", features = ["derive"] }
tokio = { version = "*", features = ["macros", "rt-multi-thread", "net"] }
tower = "*"
tower-http = { version = "*", features = ["trace"] }
tracing = "*"
tracing-subscriber = { version = "*", features = ["env-filter", "fmt"] }
