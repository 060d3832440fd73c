[package]
name = "nydus_image"
version = "0.1.0"
edition = "2021"
publish = false

[dependencies]
anyhow = "=1.0.104"
sha2 = "=0.11.1"
tar = "=0.4.46"
vmm-sys-util = "=0.11.2"
