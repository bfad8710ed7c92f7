[package]
name = "ccsniffer"
version = "0.1.0"
edition = "2021"
publish = false

[dependencies]
rusb = { version = "0.9", features = ["vendored"] }
clap = { version = "4", features = ["derive"] }
pcap-file = "2"
signal-hook = "0.3"
hxdmp = "*"
