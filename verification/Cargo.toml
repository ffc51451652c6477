[package]
name = "musica"
version = "0.1.0"
edition = "2021"
publish = false

[dependencies]
anyhow = "1"
native-dialog = "0.7"
rand = "0.8"
rodio = { version = "0.20", default-features = false, features = ["mp3", "vorbis"] }
serde = { version = "1", features = ["derive"] }
serde_json = "1"
