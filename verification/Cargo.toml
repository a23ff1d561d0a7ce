[package]
name = "polybrain"
version = "0.1.0"
edition = "2021"
publish = false

[dependencies]
uuid = { version = "*", features = ["v4"] }
tokio = { version = "*", features = ["full"] }
tokio-tungstenite = "*"
futures = "*"
serde = { version = "*", features = ["derive"] }
serde_json = "*"
reqwest = { version = "*", default-features = false }
mongodb = "*"
llm-chain = "*"
llm-chain-openai = "*"
aes = "0.7"
block-modes = "0.8"
sha2 = "*"
hex = "*"
dotenv = "*"
thiserror = "*"
async-trait = "*"
