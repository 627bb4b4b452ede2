[package]
name = "satrs_obsw"
version = "0.1.0"
edition = "2021"
publish = false

[dependencies]
embassy-time = { version = "*", features = ["std"] }
log = "0.4"
nexosim = "*"
num_enum = "*"
postcard = { version = "1", features = ["alloc"] }
serde = { version = "1", features = ["derive"] }
serde_json = "1"
spacepackets = { version = "*", features = ["serde"] }
thiserror = "2"
