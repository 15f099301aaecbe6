[package]
name = "project_bootstrap"
version = "0.1.0"
edition = "2021"
publish = false

[dependencies]
chrono = "*"
clap = "*"
convert_case = "*"
curl = "*"
dialoguer = "*"
dotenv = "*"
serde_json = "*"
tempfile = "*"
walkdir = "*"
