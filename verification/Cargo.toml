[package]
name = "taimi_hud"
version = "0.1.0"
edition = "2021"
publish = false

[dependencies]
semver = "1"
rand = "0.9"
url = "2"
unic-langid-impl = "0.9"
log = "0.4"
