[package]
name = "ecma_passes"
version = "0.1.0"
edition = "2021"
publish = false

[dependencies]
swc_ecma_ast = "*"
swc_common = "*"
