[package]
name = "bundle_lint"
version = "0.1.0"
edition = "2021"
publish = false

[dependencies]
failure = "*"
git2 = { version = "*", default-features = false }
log = "*"
serde = { version = "*", features = ["derive"] }
serde_yaml = "*"
simple_logger = "*"
structopt = "*"
xdg = "*"
