[package]
name = "cheatnet"
version = "0.1.0"
edition = "2021"
publish = false

[dependencies]
anyhow = "1"
blockifier = { version = "=0.3.0-rc0", features = ["testing"] }
cairo-felt = "=0.8.7"
starknet_api = { version = "=0.5.0-rc1", features = ["testing"] }
cairo-lang-casm = "=2.2.0"
cairo-lang-compiler = "=2.2.0"
cairo-lang-debug = "=2.2.0"
cairo-lang-defs = "=2.2.0"
cairo-lang-diagnostics = "=2.2.0"
cairo-lang-eq-solver = "=2.2.0"
cairo-lang-filesystem = "=2.2.0"
cairo-lang-lowering = "=2.2.0"
cairo-lang-parser = "=2.2.0"
cairo-lang-plugins = "=2.2.0"
cairo-lang-proc-macros = "=2.2.0"
cairo-lang-project = "=2.2.0"
cairo-lang-runner = "=2.2.0"
cairo-lang-semantic = "=2.2.0"
cairo-lang-sierra = "=2.2.0"
cairo-lang-sierra-ap-change = "=2.2.0"
cairo-lang-sierra-gas = "=2.2.0"
cairo-lang-sierra-generator = "=2.2.0"
cairo-lang-sierra-to-casm = "=2.2.0"
cairo-lang-starknet = "=2.2.0"
cairo-lang-syntax = "=2.2.0"
cairo-lang-syntax-codegen = "=2.2.0"
cairo-lang-utils = "=2.2.0"
