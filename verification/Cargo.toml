[package]
name = "ts_dynalene"
version = "0.1.4"
edition = "2021"
publish = false

[dependencies]
crc = "3"
regex = "1"
