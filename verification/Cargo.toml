[package]
name = "hci_codec"
version = "0.1.0"
edition = "2021"
publish = false

[dependencies]
rusb = "*"
bpaf = { version = "*", features = ["derive"] }
