[package]
name = "hermit"
version = "0.1.0"
edition = "2021"
publish = false

[dependencies]
clap = "2"
dirs = "*"
failure = "0.1"
failure_derive = "0.1"
git2 = { version = "*", default-features = false }
thiserror = "1"
walkdir = "2"

[dev-dependencies]
tempfile = "3"
