[package]
name = "swapeme"
version = "0.1.0"
edition = "2021"
publish = false

[dependencies]
clap = "=4.6.7"
colored = "=3.1.1"
dialoguer = "=0.12.0"
dirs = "=7.0.0"
hex_color = { version = "=3.0.0", features = ["serde"] }
reqwest = { version = "=0.12.28", default-features = false, features = ["blocking", "rustls-tls"] }
schemars = "=1.2.3"
serde = { version = "=1.0.229", features = ["derive"] }
serde_ini = "=0.2.0"
serde_json = "=1.0.154"
vdf-parser = "=0.1.8"
winreg = "=0.56.0"
zip = { version = "=9.0.5", default-features = false, features = ["deflate"] }
