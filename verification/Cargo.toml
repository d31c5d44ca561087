[package]
name = "tmq"
version = "0.1.0"
edition = "2021"
publish = false

[dependencies]
async-trait = "0.1"
futures = "0.3"
itertools = "0.10"
parse_duration = "2.1"
serde = { version = "1", features = ["derive"] }
thiserror = "1"
