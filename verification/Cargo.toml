[package]
name = "linwhisper"
version = "0.1.0"
edition = "2021"
publish = false

[dependencies]
dirs = "=7.0.0"
dotenvy = "=0.15.7"
hound = "=3.5.1"
rubato = "=5.0.1"
reqwest = { version = "=0.12.28", default-features = false, features = ["blocking", "rustls-tls"] }
whisper-rs = "*"
