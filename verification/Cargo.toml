[package]
name = "fbx_sanitizer"
version = "0.1.0"
edition = "2021"
publish = false

[dependencies]
anyhow = "1"
clap = "2"
content_inspector = "*"
env_logger = "*"
fbxcel-dom = "*"
log = "0.4"
mint = "*"
wild = "2"
