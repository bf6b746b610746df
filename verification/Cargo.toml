[package]
name = "komodo_rpc"
version = "0.1.0"
edition = "2021"
publish = false

[dependencies]
serde = { version = "=1.0.229", features = ["derive"] }
serde_json = "=1.0.154"
jsonrpc = "=0.11.0"
bitcoin = { version = "=0.32.102", features = ["serde"] }
dirs = "=7.0.0"
os_info = "=3.15.0"
