[package]
name = "shop_graph"
version = "0.1.0"
edition = "2021"
publish = false

[dependencies]
actix-web = "*"
diesel = { version = "*", features = ["sqlite"] }
env_logger = "*"
juniper = "*"
