[package]
name = "album_fetch"
version = "0.1.0"
edition = "2021"
publish = false

[dependencies]
anyhow = "1"
clap = { version = "4", features = ["derive"] }
filetime = "0.2"
futures-util = "0.3"
humansize = "2"
indicatif = "0.17"
reqwest = { version = "0.12", default-features = false, features = ["json"] }
serde = { version = "1", features = ["derive"] }
tokio = { version = "1", features = ["fs", "io-util", "macros", "rt-multi-thread"] }
url = "2"
