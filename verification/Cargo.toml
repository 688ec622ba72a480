[package]
name = "block_template"
version = "0.1.0"
edition = "2021"
publish = false

[dependencies]
async_zmq = "*"
bitcoincore-rpc = "*"
bitcoincore-rpc-json = "*"
log = "0.4"
tokio = { version = "1", features = ["macros", "rt-multi-thread", "sync", "time"] }
