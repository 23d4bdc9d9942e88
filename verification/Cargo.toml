[package]
name = "nyquist"
version = "0.1.0"
edition = "2021"
publish = false

[dependencies]
kira = "0.9"
parking_lot = "0.12"
parking_lot_mpsc = "*"
