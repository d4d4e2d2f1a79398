[package]
name = "samply"
version = "0.1.0"
edition = "2021"
publish = false

[dependencies]
byteorder = "=1.5.0"
debugid = "=0.8.0"
framehop = "0.7.2"
futures-util = "0.3"
linux-perf-data = "0.8.2"
linux-perf-event-reader = "0.8"
memmap2 = "0.5.10"
object = "0.31.1"
reqwest = { version = "0.11", default-features = false, features = ["stream"] }
symsrv = "0.2.0"
tokio = { version = "1", features = ["fs", "io-util"] }
