[package]
name = "ledger_feed"
version = "0.1.0"
edition = "2021"
publish = false

[dependencies]
bee-inx = "1.0.0-beta.6"
axum = "*"
tokio = { version = "*", features = ["macros", "rt-multi-thread", "signal", "sync"] }
futures = "*"
thiserror = "*"
tracing = "*"
tracing-subscriber = "*"
