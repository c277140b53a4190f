[package]
name = "av_rav1e"
version = "0.1.0"
edition = "2021"
publish = false

[dependencies]
av-codec = "=0.3.1"
av-data = "=0.4.4"
log = "=0.4.34"
rav1e = { version = "=0.8.1", default-features = false }
