[package]
name = "fontspector"
version = "0.1.0"
edition = "2021"
publish = false

[dependencies]
fontations = "=0.3.0"
google-fonts-subsets = "=0.202602.1"
google-fonts-languages = "=0.7.11"
google-fonts-axisregistry = "=0.5.0"
gf-metadata = "=0.2.5"
regex = "=1.13.1"
serde = { version = "=1.0.229", features = ["derive"] }
serde_json = "=1.0.154"
clap = { version = "=4.6.7", features = ["derive"] }
dialoguer = "=0.12.0"
homedir = "=0.3.6"
zip = { version = "=9.2.2", default-features = false, features = ["deflate"] }
