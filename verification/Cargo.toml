[package]
name = "manifest_sync"
version = "0.1.0"
edition = "2021"
publish = false

[dependencies]
toml_edit = "*"
anyhow = "*"
