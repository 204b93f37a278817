[package]
name = "abserde"
version = "0.1.0"
edition = "2021"
publish = false

[dependencies]
dirs = "=7.0.0"
serde = "=1.0.229"
serde_json = "=1.0.151"
serde_yaml = "=0.9.34"
serde-pickle = "=1.2.0"
serde_ini = "=0.2.0"
toml = "=1.1.6"
