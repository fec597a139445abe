[package]
name = "falcon_cli"
version = "0.1.0"
edition = "2021"
publish = false

[dependencies]
pqcrypto-falcon = "*"
pqcrypto-traits = "*"
base64 = "*"
clap = "*"
atty = "*"
home = "*"
anyhow = "*"
