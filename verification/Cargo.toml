[package]
name = "zip_to_parquet"
version = "0.1.0"
edition = "2021"
publish = false

[dependencies]
arrow-array = "*"
arrow-schema = "*"
atty = "0.2"
clap = { version = "4", features = ["derive"] }
ctrlc = "3"
glob = "0.3"
indicatif = "0.17"
parquet = { version = "*", default-features = false, features = ["arrow", "snap"] }
sha2 = "0.10"
threadpool = "1"
wax = "0.5"
zip = { version = "0.6", default-features = false, features = ["deflate"] }
