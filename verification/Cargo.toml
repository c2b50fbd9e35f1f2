[package]
name = "moonshine-rs"
version = "0.2.5"
edition = "2021"
publish = false

[dependencies]
serde = { version = "1", features = ["derive"] }
serde_json = "1"
thiserror = "1"
symphonia = { version = "0.5", features = ["mp3", "aac", "isomp4"] }
rubato = "0.16"
ureq = "2"
dirs = "5"
rustfft = "6"
