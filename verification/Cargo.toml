[package]
name = "full_optimistic"
version = "0.1.0"
edition = "2021"
publish = false

[dependencies]
fnv = "1"
hashbrown = { version = "0.9", default-features = false }
