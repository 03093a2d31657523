[package]
name = "timer_lib"
version = "0.1.0"
edition = "2021"
publish = false

[dependencies]
tokio = { version = "1", features = ["rt", "sync", "time"] }
futures = "0.3"
async-trait = "0.1"
thiserror = "1"
log = "0.4"
