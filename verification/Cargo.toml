[package]
name = "web_crawler"
version = "0.1.0"
edition = "2021"
publish = false

[dependencies]
url = "*"
select = "*"
log = "*"
env_logger = "*"
reqwest = { version = "*", default-features = false, features = ["blocking"] }
