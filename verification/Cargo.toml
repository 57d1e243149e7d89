[package]
name = "chainmail"
version = "0.1.0"
edition = "2021"
publish = false

[dependencies]
iron = "0.6.1"
