[package]
name = "cargo-pros"
version = "0.1.0"
edition = "2021"
publish = false

[dependencies]
cargo_metadata = "0.18"
cargo-subcommand-metadata = "*"
clap = { version = "4", features = ["derive"] }
directories = "5"
flate2 = "1"
fs-err = "2"
jsonl = "*"
log = "0.4"
pros-simulator = "*"
reqwest = "0.12"
serde_json = "1"
tar = "0.4"
tokio = { version = "1", features = ["fs", "macros", "rt"] }
