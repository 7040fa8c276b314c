[package]
name = "trade_decoder"
version = "0.1.0"
edition = "2021"
publish = false

[dependencies]
alloy = { version = "=2.5.0", default-features = false, features = ["std", "reqwest", "provider-http", "provider-debug-api", "provider-anvil-api", "provider-trace-api", "contract", "rpc-types"] }
tokio = { version = "*", features = ["macros", "rt-multi-thread"] }
