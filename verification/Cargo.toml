[package]
name = "wayvr_dashboard"
version = "0.1.0"
edition = "2021"
publish = false

[dependencies]
anyhow = "=1.0.104"
log = "=0.4.34"
tokio = { version = "=1.53.2", features = ["rt-multi-thread", "sync", "macros", "time"] }
libmonado = "=1.6.0"
