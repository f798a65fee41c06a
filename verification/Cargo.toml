[package]
name = "expr_schema"
version = "0.1.0"
edition = "2021"
publish = false

[dependencies]
arrow = "*"
datafusion-common = "*"
datafusion-expr = "*"
