[package]
name = "svault"
version = "0.1.0"
edition = "2021"
publish = false

[dependencies]
argon2 = "0.5"
base64 = "0.22"
chacha20poly1305 = "0.10"
clap = { version = "4", features = ["derive"] }
ed25519-dalek = "2"
getrandom = "0.2"
hkdf = "0.12"
hmac = "0.12"
libc = "0.2"
rpassword = "7"
serde = { version = "1", features = ["derive"] }
serde_json = "1"
sha2 = "0.10"
time = { version = "0.3", features = ["formatting", "parsing", "serde"] }
zeroize = { version = "1", features = ["derive"] }

[dev-dependencies]
dotenvy = "0.15"
