[package]
name = "offline_election"
version = "0.1.0"
edition = "2021"
publish = false

[dependencies]
async-trait = "0.1"
clap = { version = "4", features = ["derive"] }
frame-election-provider-support = "41"
frame-support = "41"
pallet-staking = "41"
parity-scale-codec = { version = "3", features = ["derive"] }
serde = { version = "1", features = ["derive"] }
serde_json = "1"
sp-core = "37"
sp-npos-elections = "37"
sp-runtime = "42"
tokio = { version = "1", features = ["macros", "rt-multi-thread"] }
tracing = "0.1"
tracing-subscriber = "0.3"
