[package]
name = "gitstat"
version = "0.1.0"
edition = "2021"
publish = false

[dependencies]
colored = "*"
terminal_size = "*"
serde = { version = "*", features = ["derive"] }
reqwest = { version = "*", default-features = false, features = ["json"] }
tokio = { version = "*", features = ["rt-multi-thread", "macros"] }
clap = { version = "*", features = ["derive"] }
