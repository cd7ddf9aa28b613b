[package]
name = "nowplaying"
version = "0.1.0"
edition = "2021"
publish = false

[dependencies]
dotenv = "*"
rspotify = { version = "*", default-features = false, features = ["client-reqwest", "reqwest-rustls-tls"] }
tokio = { version = "*", features = ["macros", "rt-multi-thread", "time", "sync"] }
