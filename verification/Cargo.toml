[package]
name = "mursic"
version = "0.1.0"
edition = "2021"
publish = false

[dependencies]
num = "=0.4.3"
hound = "=3.5.1"
rodio = { version = "=0.23.0", default-features = false, features = ["playback"] }
