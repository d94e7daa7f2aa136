[package]
name = "impl_trait_in_params"
version = "0.1.0"
edition = "2021"
publish = false

[dependencies]
clippy_utils = "=0.1.101"
