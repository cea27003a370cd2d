[package]
name = "lang_changer"
version = "0.1.0"
edition = "2021"
publish = false

[dependencies]
serde_json = "1"
fltk = "1"
fltk-theme = "*"
