[package]
name = "most"
version = "0.1.0"
edition = "2021"
publish = false

[dependencies]
ethers = { version = "=2.0.14", default-features = false, features = ["abigen", "ws"] }
eyre = "=0.6.14"
ink = "=4.3.0"
log = "=0.4.34"
psp22 = "0.2"
thiserror = "=1.0.69"
tokio = { version = "=1.54.1", features = ["macros", "rt", "sync", "time"] }
