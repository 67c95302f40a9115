[package]
name = "rag"
version = "0.1.0"
edition = "2021"
publish = false

[dependencies]
async-openai = "0.28"
dotenvy = "0.15"
http = "1"
regex = "1"
reqwest = { version = "0.12", default-features = false, features = ["json", "rustls-tls"] }
serde = { version = "1", features = ["derive"] }
serde_json = "1"
thiserror = "1"
tokio = { version = "1", features = ["macros", "rt-multi-thread"] }
