[package]
name = "aiql_core"
version = "0.1.0"
edition = "2021"
publish = false

[dependencies]
regex = "1"
chrono = "0.4"
serde = { version = "1", features = ["derive"] }
serde_json = "1"
anyhow = "1"
async-trait = "0.1"
log = "0.4"
tokio = { version = "1", features = ["rt-multi-thread", "macros"] }
futures-util = "0.3"
sqlx = { version = "0.8", default-features = false, features = ["postgres", "runtime-tokio"] }
mongodb = { version = "3", default-features = false, features = ["compat-3-0-0", "rustls-tls"] }
async-openai = "0.24"
ollama-rs = "0.2"
clap = { version = "4", features = ["derive", "env"] }
colored = "2"
dialoguer = "0.11"
crossterm = "0.28"
ratatui = "0.29"
libc = "0.2"
