[package]
name = "wall_a_bunga"
version = "0.1.0"
edition = "2021"
publish = false

[dependencies]
indexmap = "*"
tokio = { version = "*", default-features = false, features = ["rt-multi-thread", "macros", "fs", "io-util", "sync", "time"] }
reqwest = { version = "*", default-features = false }
image = { version = "*", default-features = false, features = ["jpeg", "png"] }
