[package]
name = "git_describe"
version = "0.1.0"
edition = "2021"
publish = false

[dependencies]
anyhow = "*"
git2 = { version = "*", default-features = false }
