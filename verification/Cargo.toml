[package]
name = "git_land"
version = "0.1.0"
edition = "2021"
publish = false

[dependencies]
git2 = "*"
