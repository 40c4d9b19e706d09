[package]
name = "urwa"
version = "0.1.0"
edition = "2021"
publish = false

[dependencies]
alloy-primitives = { version = "=0.8.20", default-features = false }
alloy-sol-types = { version = "=0.8.20", default-features = false }
keccak-const = "=0.2.0"
openzeppelin-stylus = "=0.3.0"
ruint = "=1.14.0"
stylus-sdk = { version = "=0.9.0", default-features = false }

[dev-dependencies]
arbitrary = "=1.4.1"
derive_arbitrary = "=1.4.1"
motsu = "=0.10.0"
