[package]
name = "canister_sync"
version = "0.1.0"
edition = "2021"
publish = false

[dependencies]
candid = "*"
serde = { version = "1", features = ["derive"] }
serde_json = "1"
rusqlite = { version = "*", features = ["bundled"] }
tokio = { version = "1", features = ["rt-multi-thread", "macros", "time"] }
ic-agent = "*"
