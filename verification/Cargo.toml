[package]
name = "ai_tool_calling"
version = "0.1.0"
edition = "2021"
publish = false

[dependencies]
serde_json = "1"
uuid = { version = "1", features = ["v7"] }
getrandom = "0.3"
thiserror = "2"
serde = { version = "1", features = ["derive"] }
async-trait = "0.1"
parking_lot = "0.12"
tokio = { version = "1", features = ["time", "rt", "macros", "sync"] }
