[package]
name = "papyrus_reader"
version = "0.1.0"
edition = "2021"
publish = false

[dependencies]
blockifier = "=0.4.0"
cairo-lang-casm = "=2.4.0"
cairo-lang-compiler = "=2.4.0"
cairo-lang-debug = "=2.4.0"
cairo-lang-defs = "=2.4.0"
cairo-lang-diagnostics = "=2.4.0"
cairo-lang-eq-solver = "=2.4.0"
cairo-lang-filesystem = "=2.4.0"
cairo-lang-lowering = "=2.4.0"
cairo-lang-parser = "=2.4.0"
cairo-lang-plugins = "=2.4.0"
cairo-lang-proc-macros = "=2.4.0"
cairo-lang-project = "=2.4.0"
cairo-lang-runner = "=2.4.0"
cairo-lang-semantic = "=2.4.0"
cairo-lang-sierra = "=2.4.0"
cairo-lang-sierra-ap-change = "=2.4.0"
cairo-lang-sierra-gas = "=2.4.0"
cairo-lang-sierra-generator = "=2.4.0"
cairo-lang-sierra-to-casm = "=2.4.0"
cairo-lang-sierra-type-size = "=2.4.0"
cairo-lang-starknet = "=2.4.0"
cairo-lang-syntax = "=2.4.0"
cairo-lang-syntax-codegen = "=2.4.0"
cairo-lang-utils = "=2.4.0"
papyrus_storage = "=0.2.2"
starknet_api = "=0.6.0"
