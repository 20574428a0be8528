[package]
name = "delegation_bench"
version = "0.1.0"
edition = "2021"
publish = false

[dependencies]
base64 = "=0.23.1"
candid = "=0.10.37"
ic-agent = { version = "=0.49.2", features = ["ring"] }
ring = "=0.17.14"
serde = { version = "=1.0.229", features = ["derive"] }
serde_bytes = "=0.11.19"
reqwest = { version = "=0.12.28", features = ["rustls-tls"] }
tokio = { version = "=1.53.2", features = ["macros", "rt-multi-thread", "time"] }
indicatif = "=0.18.6"
