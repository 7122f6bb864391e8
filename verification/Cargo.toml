[package]
name = "surge"
version = "0.1.0"
edition = "2021"
publish = false

[dependencies]
serde_json = "1"
regex = "1"
hyper = "0.10"
hyper-native-tls = "0.3"
rustyline = "*"
rust-ini = "*"
app_dirs = "*"
image = "*"
termimage = "*"
term_size = "*"
mpv = "*"
