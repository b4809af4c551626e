[package]
name = "led_controller"
version = "0.1.0"
edition = "2021"
publish = false

[dependencies]
rand = "0.8"
ddp-rs = "*"
rust-ini = "*"
crossterm = "0.28"
ratatui = "0.29"
