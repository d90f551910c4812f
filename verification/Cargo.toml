[package]
name = "parse_style"
version = "0.1.0"
edition = "2021"
publish = false

[dependencies]
unicase = "=2.10.0"
thiserror = "=2.0.21"
ratatui-core = "=0.1.2"
serde = "1"
