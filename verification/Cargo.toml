[package]
name = "spike_prime"
version = "0.1.0"
edition = "2021"
publish = false

[dependencies]
crc = "=3.4.0"
uuid = "=1.27.0"
tokio = { version = "=1.53.2", default-features = false, features = ["sync", "rt", "macros", "rt-multi-thread"] }
futures = "=0.3.34"
