[package]
name = "aqon"
version = "0.1.0"
edition = "2021"
publish = false

[dependencies]
anyhow = "1"
calamine = "0.22"
clap = { version = "4", features = ["derive"] }
colored = "2"
docx-rs = "0.4"
env_logger = "0.10"
genpdf = "0.2"
indicatif = "0.17"
log = "0.4"
notify = "6"
walkdir = "2"

[dev-dependencies]
rust_xlsxwriter = "*"
tempfile = "3"
