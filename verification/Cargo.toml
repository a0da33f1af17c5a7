[package]
name = "rebase_core"
version = "0.1.0"
edition = "2021"
publish = false

[dependencies]
chrono = "*"
git2 = "*"
pancurses = "*"
unicode-segmentation = "*"
