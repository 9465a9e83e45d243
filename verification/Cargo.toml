[package]
name = "era_compiler_vyper"
version = "0.1.0"
edition = "2021"
publish = false

[dependencies]
anyhow = "1"
hex = "0.4"
semver = "1"
serde = { version = "1", features = ["derive"] }
serde_json = "1"
rayon = "1"
which = "8"
lazy_static = "1"
normpath = "1"
path-slash = "0.2"
era-compiler-common = "1.5.0"
