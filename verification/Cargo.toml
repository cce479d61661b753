[package]
name = "gpg_alias"
version = "0.1.0"
edition = "2021"
publish = false

[dependencies]
ansi_term = "*"
clap = "*"
dirs = "*"
fern = "*"
gpgme = "*"
log = "*"
serde = { version = "*", features = ["derive"] }
toml = "*"
