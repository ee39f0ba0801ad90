[package]
name = "vixi"
version = "0.1.0"
edition = "2021"
publish = false

[dependencies]
clap = "=2.34.0"
dirs = "=2.0.2"
failure = "=0.1.8"
serde_json = "=1.0.154"
termion = "1.5"
toml = "=0.5.11"
xi-rpc = "=0.3.0"
