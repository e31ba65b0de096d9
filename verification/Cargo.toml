[package]
name = "gophers-fishbowl"
version = "0.1.0"
edition = "2021"
publish = false

[dependencies]
heapless = "0.8"
rust-mqtt = { version = "0.3", default-features = false }
embassy-executor = "0.5"
embassy-net = { version = "0.4", features = ["tcp", "dns", "dhcpv4", "proto-ipv4", "medium-ethernet"] }
embassy-time = "0.3"
static_cell = "2"
log = "0.4"
esp-hal = "0.16"
esp-wifi = "0.4"
esp-println = "0.10"
esp-backtrace = "0.11"
