[package]
name = "spotify_worker"
version = "0.1.0"
edition = "2021"
publish = false

[dependencies]
futures = "0.3"
librespot-core = "0.4.2"
librespot-playback = { version = "0.4.2", default-features = false }
log = "0.4"
tokio = { version = "1", features = ["macros", "rt", "sync", "time"] }
tokio-stream = "0.1"
