[package]
name = "ptp_ingest"
version = "0.1.0"
edition = "2021"
publish = false

[dependencies]
libptp = "*"
rusb = "*"
