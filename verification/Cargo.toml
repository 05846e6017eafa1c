[package]
name = "felico"
version = "0.1.0"
edition = "2021"
publish = false

[dependencies]
rand = "=0.10.3"
anstream = "=1.0.0"
itertools = "=0.15.0"
directories = "=6.0.0"
attohttpc = { version = "=0.31.0", default-features = false }
zip = { version = "=9.2.2", default-features = false, features = ["deflate"] }
miette = { version = "=7.6.0", default-features = false }
termtree = "*"
