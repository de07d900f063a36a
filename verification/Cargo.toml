[package]
name = "k7s"
version = "0.1.0"
edition = "2021"
publish = false

[dependencies]
axum = "*"
config = "*"
once_cell = "*"
serde = { version = "*", features = ["derive"] }
serde_json = { version = "*", features = ["preserve_order"] }
time = { version = "*", features = ["formatting"] }
tokio = { version = "*", features = ["macros", "rt-multi-thread", "net"] }
tracing = "*"
tracing-subscriber = { version = "*", features = ["env-filter"] }
