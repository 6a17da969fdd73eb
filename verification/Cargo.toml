[package]
name = "wake_on_traffic"
version = "0.1.0"
edition = "2021"
publish = false

[dependencies]
clap = { version = "4", features = ["derive"] }
default-net = "*"
etherparse = "*"
itertools = "*"
pcap = "*"
