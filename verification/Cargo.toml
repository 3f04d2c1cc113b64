[package]
name = "rsocket_transport_websocket"
version = "0.1.0"
edition = "2021"
publish = false

[dependencies]
bytes = "=1.12.1"
futures = "=0.3.34"
rsocket_rust = { version = "=0.7.5", features = ["frame"] }
tokio = { version = "=1.54.1", features = ["io-util", "net", "rt", "time"] }
tokio-tungstenite = "=0.13.0"
url = "=2.5.8"

[dev-dependencies]
socket2 = { version = "=0.6.5", features = ["all"] }
