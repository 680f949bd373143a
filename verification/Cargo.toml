[package]
name = "sacc"
version = "0.1.0"
edition = "2021"
publish = false

[dependencies]
iced-x86 = { version = "1", features = ["code_asm"] }
termcolor = "1"
elsa = "1"
pathdiff = "0.2"
clap = { version = "3", features = ["derive"] }
logos = "0.12"
