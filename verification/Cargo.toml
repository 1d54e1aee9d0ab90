[package]
name = "weverywhere"
version = "0.1.0"
edition = "2021"
publish = false

[dependencies]
base64 = "=0.23.1"
ed25519-dalek = { version = "=2.2.0", features = ["rand_core", "pkcs8", "pem"] }
ssh-key = "=0.6.7"
pem = "=4.0.0"
pkcs8 = { version = "=0.11.0", features = ["pem"] }
der = "=0.8.2"
rand = "=0.8.8"
tokio = { version = "1", features = ["full"] }
clap = { version = "4", features = ["derive"] }
serde = { version = "1", features = ["derive"] }
toml = "*"
serde_bare = "*"
serde_json = "1"
serde_cbor = "*"
get_if_addrs = "*"
libc = "*"
tracing = "*"
tracing-appender = "*"
tracing-subscriber = "*"
wasmtime = "=48.0.5"
wasmtime-wasi = "=48.0.5"
