[package]
name = "autoplate"
version = "0.1.0"
edition = "2021"
publish = false

[dependencies]
shell-escape = "*"
clap = { version = "*", features = ["derive"] }
serde = { version = "*", features = ["derive"] }
serde_json = "*"
serde_yml = "*"
inquire = "*"
ignore = "*"
thiserror = "*"
