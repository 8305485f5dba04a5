[package]
name = "server_switcher"
version = "0.1.0"
edition = "2021"
publish = false

[dependencies]
rust-ini = "=0.21.3"
osu-db = { version = "=0.3.0", default-features = false }
mslnk = "=0.1.8"
seahorse = "=2.2.0"
whoami = "=1.6.1"
