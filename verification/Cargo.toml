[package]
name = "yabridgectl"
version = "0.1.0"
edition = "2021"
publish = false

[dependencies]
anyhow = "1"
colored = "2"
is_executable = "1"
textwrap = { version = "0.13", features = ["terminal_size"] }
