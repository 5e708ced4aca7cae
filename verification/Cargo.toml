[package]
name = "word_lookup"
version = "0.1.0"
edition = "2021"
publish = false

[dependencies]
dirs = "*"
serde_json = "1"
config = "*"
log = "0.4"
stderrlog = "*"
structopt = "0.3"
