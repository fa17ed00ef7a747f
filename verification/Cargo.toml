[package]
name = "oeis"
version = "0.1.0"
edition = "2021"
publish = false

[dependencies]
textwrap = "*"
clap = { version = "*", features = ["derive"] }
termion = "*"
open = "*"
reqwest = { version = "*", features = ["blocking", "json"] }
serde = { version = "*", features = ["derive"] }
serde_json = "*"
