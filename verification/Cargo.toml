[package]
name = "ws_stream_tungstenite"
version = "0.1.0"
edition = "2021"
publish = false

[dependencies]
pharos = "*"
async-tungstenite = "*"
tungstenite = "*"
futures-core = "*"
futures-sink = "*"
futures-io = "*"
futures-util = "*"

[dev-dependencies]
futures = "*"
futures-test = "*"
futures_ringbuf = "*"
