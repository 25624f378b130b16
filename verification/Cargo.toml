[package]
name = "pairsync"
version = "0.1.0"
edition = "2021"
publish = false

[dependencies]
crc32fast = "1"
infer = "*"
content_inspector = "*"
clap = { version = "4", features = ["derive"] }
notify-debouncer-full = "*"
