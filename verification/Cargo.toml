[package]
name = "sysmetrics"
version = "0.1.0"
edition = "2021"
publish = false

[dependencies]
chrono = "0.4"
dotenv = "0.15"
postgres = "0.19"
sysinfo = "*"
