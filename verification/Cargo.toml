[package]
name = "semantic_release"
version = "0.1.0"
edition = "2021"
publish = false

[dependencies]
semver = "*"
git2 = "*"
toml = "*"
clog = "*"
