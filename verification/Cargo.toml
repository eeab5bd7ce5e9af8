[package]
name = "option_pricer"
version = "0.1.0"
edition = "2021"
publish = false

[dependencies]
polars = { version = "*", default-features = false }
rand = "*"
rand_distr = "*"
rayon = "*"
statrs = "*"
