[package]
name = "ustunet"
version = "0.1.0"
edition = "2021"
publish = false

[dependencies]
futures = "0.3"
smoltcp = { version = "0.7", default-features = false, features = ["std", "ethernet", "proto-ipv4", "proto-ipv6", "socket-tcp", "socket-udp"] }
snafu = "0.6"
tokio = { version = "1", features = ["io-util", "macros", "net", "rt", "rt-multi-thread", "sync"] }
tokio-fd = "*"
tokio-stream = "0.1"
tun = "0.5"
