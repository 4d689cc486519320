[package]
name = "accord"
version = "0.1.0"
edition = "2021"
publish = false

[dependencies]
sha2 = "=0.11.0"
serde = { version = "=1.0.229", features = ["derive"] }
serde_cbor = "=0.11.2"
serde_json = "=1.0.151"
tokio = { version = "=1.53.2", features = ["macros", "rt-multi-thread", "net", "io-util", "time", "sync"] }
warp = { version = "=0.4.3", features = ["server"] }
structopt = "=0.3.26"
