[package]
name = "elba"
version = "0.1.0"
edition = "2021"
publish = false

[dependencies]
copy_dir = "*"
indexmap = { version = "*", features = ["serde"] }
Inflector = "*"
reqwest = { version = "*", default-features = false, features = ["blocking"] }
semver = { version = "*", features = ["serde"] }
serde = { version = "*", features = ["derive"] }
sha2 = "*"
toml = "*"
url = { version = "*", features = ["serde"] }
