[package]
name = "keystore2"
version = "0.1.0"
edition = "2021"
publish = false

[dependencies]
aes-gcm = "0.10"
hmac = "0.12"
sha2 = "0.10"
pbkdf2 = "0.12"
getrandom = "0.2"
