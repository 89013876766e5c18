[package]
name = "gecko_bridge"
version = "0.1.0"
edition = "2021"
publish = false

[dependencies]
cid = "*"
euclid = "*"
log = "*"
parking_lot = "*"

[dev-dependencies]
bincode = "1.3"
serde = "1"
