[package]
name = "rusty_mine"
version = "0.1.0"
edition = "2021"
publish = false

[dependencies]
simdnbt = "*"
rsa = { version = "0.9", features = ["getrandom"] }
sha1 = "0.10"
num-bigint = "0.4"
uuid = { version = "1", features = ["serde"] }
serde = { version = "1", features = ["derive"] }
serde_json = "1"
serde-java-properties = "*"
tokio = { version = "1", features = ["full"] }
clap = { version = "4", features = ["derive"] }
eyre = "0.6"
tracing = "0.1"
tracing-subscriber = { version = "0.3", features = ["env-filter"] }
reqwest = { version = "0.12", default-features = false, features = ["json", "rustls-tls"] }
