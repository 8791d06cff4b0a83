[package]
name = "mrpack_convert"
version = "0.1.0"
edition = "2021"
publish = false

[dependencies]
base16ct = { version = "*", features = ["alloc"] }
sha1 = "*"
sha2 = "*"
serde = { version = "*", features = ["derive"] }
serde_json = "*"
reqwest = { version = "*", default-features = false, features = ["blocking", "rustls-tls"] }
