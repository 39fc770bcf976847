[package]
name = "clap_conf"
version = "0.1.0"
edition = "2021"
publish = false

[dependencies]
clap = "2"
toml = "0.5"
thiserror = "1"
