[package]
name = "zao_transfer_core"
version = "0.1.0"
edition = "2021"
publish = false

[dependencies]
chacha20poly1305 = "0.10"
dirs = "5"
ed25519-dalek = { version = "2", features = ["rand_core"] }
futures-util = "0.3"
hex = "0.4"
jni = "0.21"
mdns-sd = "0.11"
once_cell = "1"
quinn = "0.11"
rand = "0.8"
rand_core = { version = "0.6", features = ["getrandom"] }
rcgen = "0.13"
rusqlite = { version = "0.31", features = ["bundled-sqlcipher-vendored-openssl"] }
rustls = { version = "0.23", default-features = false, features = ["ring", "std"] }
serde = { version = "1", features = ["derive"] }
serde_json = "1"
sha2 = "0.10"
snow = "0.9"
tokio = { version = "1", features = ["full"] }
tokio-tungstenite = { version = "0.21", features = ["rustls-tls-native-roots"] }
uuid = { version = "1", features = ["v4"] }
whoami = "1"
x25519-dalek = { version = "2", features = ["static_secrets"] }
