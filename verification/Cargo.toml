[package]
name = "toqst_typer"
version = "0.1.0"
edition = "2021"
publish = false

[dependencies]
ratatui = "*"
rand = "*"
color-eyre = "*"
