[package]
name = "reactagent"
version = "0.1.0"
edition = "2021"
publish = false

[dependencies]
async-openai = { version = "=0.42.1", features = ["chat-completion"] }
async-trait = "*"
clap = { version = "*", features = ["derive"] }
colored = "*"
dotenv = "*"
reqwest = { version = "*", default-features = false, features = ["json", "rustls-tls"] }
schemars = "*"
serde = { version = "*", features = ["derive"] }
serde_json = "=1.0.151"
thiserror = "*"
tokio = { version = "*", features = ["macros", "rt-multi-thread"] }
