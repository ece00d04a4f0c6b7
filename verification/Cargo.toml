[package]
name = "playlist_sync"
version = "0.1.0"
edition = "2021"
publish = false

[dependencies]
rspotify = "=0.10.0"
telegram-bot = "=0.6.3"
tokio-core = "=0.1.18"
futures = "=0.1.31"
