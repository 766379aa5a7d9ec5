[package]
name = "biestar_core"
version = "0.1.0"
edition = "2021"
publish = false

[dependencies]
argon2 = "=0.5.3"
jsonwebtoken = "=9.3.1"
password-hash = { version = "=0.5.0", features = ["getrandom"] }
serde_json = "=1.0.151"
