[package]
name = "html_mcp_reader"
version = "0.1.0"
edition = "2021"
publish = false

[dependencies]
html-escape = "*"
scraper = "*"
reqwest = { version = "*", default-features = false }
tokio = { version = "*", features = ["rt-multi-thread", "macros", "io-util", "net", "time"] }
chromiumoxide = "*"
futures = "*"
axum = "*"
tower-http = { version = "*", features = ["cors"] }
serde = { version = "*", features = ["derive"] }
serde_json = "*"
uuid = { version = "*", features = ["v4"] }
clap = { version = "*", features = ["derive"] }
atty = "*"
async-trait = "*"
tracing = "*"
tracing-subscriber = "*"
