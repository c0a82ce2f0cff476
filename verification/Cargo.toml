[package]
name = "asyncgit"
version = "0.1.0"
edition = "2021"
publish = false

[dependencies]
git2 = "*"
crossbeam-channel = "*"
crossterm = "*"
tui = "*"
filetreelist = "*"
anyhow = "*"

[dev-dependencies]
tempfile = "*"
