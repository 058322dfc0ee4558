[package]
name = "abx"
version = "0.1.0"
edition = "2021"
publish = false

[dependencies]
anyhow = "1"
gstreamer = "0.17"
structopt = "0.3"
termion = "1.5"
tui = { version = "0.19", default-features = false, features = ["termion"] }
