[package]
name = "warqueen"
version = "0.4.4"
edition = "2021"
publish = false

[dependencies]
quinn = { version = "0.11", default-features = false, features = ["log", "runtime-tokio", "rustls-ring"] }
rustls = { version = "0.23", default-features = false, features = ["ring", "std", "logging", "tls12"] }
rcgen = "0.13"
tokio = { version = "1", features = ["rt", "rt-multi-thread", "sync", "time", "net"] }
rmp-serde = "1"
serde = "1"
is_main_thread = "0.1"
