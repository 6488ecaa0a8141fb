[package]
name = "mpf_mc"
version = "0.1.0"
edition = "2021"
publish = false

[dependencies]
ggez = "0.5"
gstreamer = "0.16"
gstreamer-app = "0.16"
gstreamer-video = "0.16"
arc-swap = "0.4"
image = "0.23"
tokio = { version = "0.2", features = ["rt-threaded", "macros"] }
tonic = "0.2"
prost = "0.6"
