[package]
name = "kos"
version = "0.1.0"
edition = "2021"
publish = false

[dependencies]
crossbeam-queue = "=0.3.14"
pc-keyboard = "=0.9.0"
spin = "=0.12.3"
conquer-once = "=0.4.0"
futures-util = "=0.3.34"
x86_64 = { version = "=0.14.13", default-features = false, features = ["instructions"] }
embedded-time = "=0.12.1"
