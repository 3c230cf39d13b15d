[package]
name = "deflect"
version = "0.1.0"
edition = "2021"
publish = false

[dependencies]
gimli = "0.27"
addr2line = "0.19"
anyhow = "1"
thiserror = "1"
dashmap = "5"
once_cell = "1"
memmap2 = "0.5"
procmaps = "0.4"
rustc-demangle = "0.1"
serde = "1"
itertools = "0.10"
