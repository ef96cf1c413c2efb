[package]
name = "termini"
version = "0.1.0"
edition = "2021"
publish = false

[dependencies]
gtk4 = "0.3"
gettext-rs = "0.7"
log = "0.4"
once_cell = "1"
pretty_env_logger = "0.4"
