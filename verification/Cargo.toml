[package]
name = "http_node"
version = "0.1.0"
edition = "2021"
publish = false

[dependencies]
bincode = "2"
httparse = { version = "1", default-features = false }
embassy-net = { version = "*", features = ["tcp", "dhcpv4", "proto-ipv4", "medium-ethernet"] }
embassy-executor = "*"
embassy-time = "*"
embedded-io-async = "*"
static_cell = "2"
esp-hal = "*"
esp-hal-embassy = "*"
esp-wifi = "*"
esp-alloc = "*"
esp-backtrace = "*"
esp-println = "*"
