[package]
name = "rusty_wit"
version = "0.1.0"
edition = "2021"
publish = false

[dependencies]
anyhow = "1"
flate2 = "1"
iced = { version = "0.9", default-features = false }
iced_native = "0.10"
rust-ini = "0.19"
sysinfo = "0.29"
tar = "0.4"
ureq = "2"
zip = { version = "0.6", default-features = false, features = ["deflate"] }
