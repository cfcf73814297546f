[package]
name = "fluent-i18n"
version = "0.1.0"
edition = "2021"
publish = false

[dependencies]
fluent-templates = "*"
sys-locale = "*"
thiserror = "*"
unic-langid = "*"
