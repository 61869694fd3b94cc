[package]
name = "openmls_traits"
version = "0.1.0"
edition = "2021"
publish = false

[dependencies]
serde = { version = "1.0", features = ["derive"] }
tls_codec = { version = "0.4", features = ["derive", "serde", "std"] }

[dev-dependencies]
serde_json = "1.0"
postcard = { version = "1", features = ["alloc"] }
ciborium = "0.2"
