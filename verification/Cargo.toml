[package]
name = "dappctl"
version = "0.1.0"
edition = "2021"
publish = false

[dependencies]
anyhow = "*"
cargo-run-bin = "*"
clap = { version = "*", features = ["derive"] }
colored = "*"
tokio = { version = "*", features = ["macros", "rt-multi-thread"] }
