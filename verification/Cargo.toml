[package]
name = "yadex"
version = "0.1.0"
edition = "2021"
publish = false

[dependencies]
handlebars = "*"
serde_json = "*"
urlencoding = "*"
html-escape = "*"
chrono = { version = "*", features = ["serde"] }
serde = { version = "*", features = ["derive"] }
axum = "*"
tokio = { version = "*", features = ["rt-multi-thread", "net", "fs", "macros"] }
clap = { version = "*", features = ["derive"] }
figment = { version = "*", features = ["toml"] }
tracing = "*"
tracing-subscriber = { version = "*", features = ["env-filter"] }
