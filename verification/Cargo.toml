[package]
name = "bootimage"
version = "0.1.0"
edition = "2021"
publish = false

[dependencies]
json = "*"
toml = "*"
cargo_metadata = "*"
locate-cargo-manifest = "*"
llvm-tools = "*"
wait-timeout = "*"
rayon = "*"
anyhow = "*"
