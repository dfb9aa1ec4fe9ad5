[package]
name = "brainstorm"
version = "0.1.0"
edition = "2021"

[dependencies]
lalrpop-util = { version = "*", features = ["lexer"] }
