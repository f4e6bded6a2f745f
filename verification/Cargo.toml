[package]
name = "cng_store"
version = "0.1.0"
edition = "2021"
publish = false

[dependencies]
widestring = "=1.2.1"
windows = { version = "=0.48.0", features = ["Win32_Foundation", "Win32_Security_Cryptography"] }
