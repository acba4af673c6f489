[package]
name = "chnroutes"
version = "0.1.0"
edition = "2021"
publish = false

[dependencies]
clap = { version = "4", features = ["derive"] }
colored = "*"
env_logger = "*"
futures-util = "0.3"
ipnet = "2"
log = "0.4"
net-route = "*"
netdev = "*"
reqwest = { version = "0.12", default-features = false, features = ["blocking", "rustls-tls"] }
thiserror = "*"
tokio = { version = "1", features = ["macros", "rt-multi-thread", "sync"] }
zstd = "*"
