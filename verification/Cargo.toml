[package]
name = "totpgen"
version = "0.1.0"
edition = "2021"
publish = false

[dependencies]
anyhow = "1"
clap = { version = "4", features = ["derive"] }
confy = "0.4"
hmac = "0.10"
serde = { version = "1", features = ["derive"] }
sha-1 = "0.9"
strfmt = "0.1"
