[package]
name = "csvx"
version = "5.2.0"
edition = "2021"
publish = false

[dependencies]
chrono = { version = "=0.4.45", default-features = false }
csv = "=0.15.0"
clap = "=2.34.0"
term-painter = "=0.4.0"
term_size = "=0.3.2"
textwrap = "=0.11.0"

[dev-dependencies]
regex = "=1.13.1"
