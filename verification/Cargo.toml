[package]
name = "mylog"
version = "0.1.0"
edition = "2021"
publish = false

[dependencies]
chrono = "0.4"
regex = "1"
textwrap = "0.16"
crossterm = "*"
clap = { version = "4", features = ["derive"] }
edit = "*"
toml = "*"
toml_edit = "*"
serde = { version = "1", features = ["derive"] }
dirs = "*"
