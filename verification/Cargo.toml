[package]
name = "cait_sith"
version = "0.1.0"
edition = "2021"
publish = false

[dependencies]
k256 = "=0.13.4"
ck-meow = "=0.1.0"
magikitten = "=0.2.0"
rand_core = { version = "=0.6.4", features = ["getrandom"] }

[dev-dependencies]
sha2 = "=0.10.9"
