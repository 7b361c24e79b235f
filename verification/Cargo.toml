[package]
name = "swarm_protocol"
version = "0.1.0"
edition = "2021"
publish = false

[dependencies]
prost = "*"
thiserror = "*"
tokio = { version = "1", features = ["rt-multi-thread", "macros", "net", "io-util", "time", "sync", "signal"] }
tokio-util = "*"
tokio-rustls = { version = "*", default-features = false, features = ["ring", "logging", "tls12"] }
rustls = { version = "*", default-features = false, features = ["ring", "std", "logging", "tls12"] }
rustls-pemfile = "*"
dashmap = "*"
humantime = "*"
clap = { version = "*", features = ["derive"] }
lum_log = "*"
