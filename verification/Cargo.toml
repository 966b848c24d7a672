[package]
name = "mdrender"
version = "0.1.0"
edition = "2021"
publish = false

[dependencies]
pulldown-cmark = "0.6"
log = "0.4"
