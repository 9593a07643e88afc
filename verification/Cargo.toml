[package]
name = "ncl"
version = "0.1.0"
edition = "2021"
publish = false

[dependencies]
anyhow = "1"
clap = { version = "4", features = ["derive"] }
cliclack = "0.3"
console = "0.15"
dirs-next = "2"
git2 = { version = "0.19", default-features = false }
grep-regex = "0.1"
grep-searcher = "0.1"
keyring = { version = "3", features = ["linux-native"] }
log = "0.4"
regex = "1"
reqwest = { version = "0.12", default-features = false, features = ["blocking", "json", "rustls-tls"] }
sanitize-filename = "0.5"
serde = { version = "1", features = ["derive"] }
serde_json = "1"
simplelog = "0.12"
terminal_size = "0.4"
toml = "0.8"
walkdir = "2"
which = "6"
whoami = "1"
