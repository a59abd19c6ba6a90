[package]
name = "ble_hci"
version = "0.1.0"
edition = "2021"
publish = false
