[package]
name = "icmp_socket"
version = "0.1.0"
edition = "2021"
publish = false

[dependencies]
defmt = "0.3"
embassy-net-driver = "0.2"
smoltcp = { version = "0.12", default-features = false, features = ["alloc", "async", "medium-ip", "proto-ipv4", "proto-ipv6", "socket-icmp"] }
