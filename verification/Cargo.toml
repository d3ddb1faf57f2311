[package]
name = "pkg_build_remote"
version = "0.1.0"
edition = "2021"
publish = false

[dependencies]
url = "2"
percent-encoding = "1"
serde = { version = "1", features = ["derive"] }
serde_json = "1"
reqwest = { version = "*", default-features = false, features = ["blocking"] }
structopt = "0.3"
prettytable-rs = "*"
log = "0.4"
pretty_env_logger = "*"
