[package]
name = "humanity_tokens"
version = "0.1.0"
edition = "2021"
publish = false

[dependencies]
challenge-bypass-ristretto = { version = "=2.1.0", features = ["serde_base64"] }
hmac = "=0.12.1"
sha2 = "=0.10.9"
rand = "=0.8.8"
rand_core = "0.6"
serde = { version = "1", features = ["derive"] }
serde_json = "1"
actix-web = "4"
actix-http = "3"
