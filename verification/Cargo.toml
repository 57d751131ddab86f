[package]
name = "resp"
version = "0.1.0"
edition = "2021"
publish = false

[dependencies]
aho-corasick = "1"
color-eyre = "0.6"
thiserror = "2"
tracing = "0.1"
tracing-subscriber = "0.3"
