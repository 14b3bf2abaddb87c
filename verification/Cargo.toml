[package]
name = "word_guesser"
version = "0.1.0"
edition = "2021"
publish = false

[dependencies]
console = "0.15"
itertools = "0.10"
rand = "0.8"
structopt = "0.3"
