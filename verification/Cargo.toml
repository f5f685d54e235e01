[package]
name = "lemmy_help"
version = "0.1.0"
edition = "2021"
publish = false

[dependencies]
chumsky = { version = "=1.0.0-alpha.3", default-features = false, features = ["std"] }
comfy-table = { version = "6.1", default-features = false }
lexopt = "0.3"
textwrap = { version = "0.16", default-features = false }
