[package]
name = "pcap_converter"
version = "0.1.0"
edition = "2021"
publish = false

[dependencies]
hex = "*"
chrono = "*"
clap = { version = "*", features = ["derive"] }
rtshark = "*"
polars = { version = "*", default-features = false, features = ["parquet", "lazy"] }
polars-utils = "*"
