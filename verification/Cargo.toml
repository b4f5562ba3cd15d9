[package]
name = "kcl_requests"
version = "0.1.0"
edition = "2021"
publish = false

[dependencies]
anyhow = "=1.0.104"
crossbeam-channel = { version = "=0.5.17", default-features = false, features = ["std"] }
lsp-server = "=0.6.0"
lsp-types = { version = "=0.93.2", features = ["proposed"] }
parking_lot = "=0.12.5"
ra_ap_vfs = "=0.0.149"
