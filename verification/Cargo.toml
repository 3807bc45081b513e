[package]
name = "qdrant_edge_sync"
version = "0.1.0"
edition = "2021"
publish = false

[dependencies]
serde_json = "=1.0.154"
anyhow = "1"
futures-util = { version = "0.3", default-features = false, features = ["std"] }
iced = { version = "=0.14.0", default-features = false, features = ["tokio", "image-without-codecs", "tiny-skia", "x11"] }
image = { version = "0.25", default-features = false, features = ["png"] }
reqwest = { version = "=0.12.28", default-features = false, features = ["json", "stream"] }
rfd = { version = "0.17", default-features = false, features = ["xdg-portal"] }
tokio = { version = "1", features = ["rt-multi-thread", "fs", "io-util", "sync"] }
tokio-stream = { version = "0.1", default-features = false }
