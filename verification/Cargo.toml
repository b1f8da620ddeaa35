[package]
name = "dora"
version = "0.1.0"
edition = "2021"
publish = false

[dependencies]
byteorder = "1"
docopt = "1"
serde = { version = "1", features = ["derive"] }
num_cpus = "1"
