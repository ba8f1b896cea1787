[package]
name = "regl"
version = "0.1.0"
edition = "2021"
publish = false

[dependencies]
base64 = "=0.22.1"
ccatoken = "=0.1.0"
ciborium = "=0.2.2"
cmw = "=0.1.2"
coset = "=0.4.2"
ecdsa = "=0.16.9"
p384 = { version = "=0.13.1", features = ["ecdsa", "jwk"] }
rand_core = { version = "=0.6.4", features = ["getrandom"] }
reqwest = { version = "=0.12.28", default-features = false, features = ["blocking", "json"] }
serde = { version = "=1.0.229", features = ["derive"] }
serde_json = "=1.0.154"
sha2 = "=0.10.9"
tempfile = "=3.27.0"
url = "=2.5.8"
