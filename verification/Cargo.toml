[package]
name = "privpay"
version = "0.1.0"
edition = "2021"
publish = false

[dependencies]
bitcoin = "0.29"
clap = { version = "4", features = ["derive"] }
dialoguer = "*"
json = "*"
secstr = "*"

[dev-dependencies]
bip351 = "*"
