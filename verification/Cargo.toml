[package]
name = "stride"
version = "0.1.0"
edition = "2021"
publish = false

[dependencies]
anyhow = "1"
bincode = "1"
byte-unit = "5"
clap = { version = "4", features = ["derive"] }
hdrhistogram = "7"
memmap2 = "0.9"
quanta = "0.12"
rand = "0.8"
serde = { version = "1", features = ["derive"] }
sideway = "*"
thiserror = "1"
tracing = "0.1"
tracing-subscriber = "0.3"
