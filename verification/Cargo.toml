[package]
name = "dfplayer_control"
version = "0.1.0"
edition = "2021"
publish = false

[dependencies]
critical-section = { version = "=1.2.0", features = ["std"] }
dnsparse = "*"
embassy-executor = "*"
embassy-net = { version = "*", features = ["proto-ipv4", "medium-ethernet", "tcp", "udp"] }
embassy-sync = "=0.8.0"
embassy-time = "*"
embedded-io-async = "*"
embedded-svc = "*"
heapless = "=0.9.3"
log = "*"
picoserve = { version = "*", features = ["embassy"] }
static_cell = "*"
