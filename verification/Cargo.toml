[package]
name = "destructure"
version = "0.1.0"
edition = "2021"
publish = false

[dependencies]
proc-macro2 = "1"
quote = "1"
syn = { version = "2", features = ["full"] }
darling = "0.20"
criterion = { version = "0.5", default-features = false }

[dev-dependencies]
anyhow = "1"
