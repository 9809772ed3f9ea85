[package]
name = "neo_scripts"
version = "0.1.0"
edition = "2021"
publish = false

[dependencies]
rhai = "0.9"
rand = "0.7"
serenity = "0.8"
dotenv = "0.15"
pretty_env_logger = "0.3"
