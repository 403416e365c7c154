[package]
name = "dds_gen"
version = "0.1.0"
edition = "2021"
publish = false

[dependencies]
syn = { version = "*", features = ["full"] }
bindgen = "*"
cc = "*"
cyclonedds-idlc = "*"
