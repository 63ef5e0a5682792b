[package]
name = "soteria-aegis"
version = "0.1.0"
edition = "2021"
publish = false

[dependencies]
aes-gcm = "0.10"
argon2 = "0.5"
blake3 = "1"
chacha20poly1305 = "0.10"
hkdf = "0.12"
libc = "0.2"
rand = "0.8"
sha2 = "0.10"
subtle = "2"
thiserror = "1"
zeroize = "1"
