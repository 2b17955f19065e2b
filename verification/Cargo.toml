[package]
name = "spring_night"
version = "0.1.0"
edition = "2021"
publish = false

[dependencies]
anyhow = "1"
getopts = "0.2"

[dev-dependencies]
regex = "1"
toml_edit = "0.22"
