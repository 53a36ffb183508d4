[package]
name = "bcos_sdk"
version = "0.1.0"
edition = "2021"
publish = false

[dependencies]
byteorder = "1.5.0"
ethabi = "18.0.0"
hex = "0.4.3"
parity-crypto = "0.9.0"
secp256k1 = { version = "0.29.1", features = ["recovery", "global-context"] }
rand = "0.9.5"
serde = { version = "1", features = ["derive"] }
serde_json = "1"
hyper = { version = "0.14", features = ["client", "http1", "runtime", "tcp"] }
hyper-rustls = "0.24.2"
rustls = { version = "0.21.12", features = ["dangerous_configuration"] }
rustls-pemfile = "1.0.4"
