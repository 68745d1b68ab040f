[package]
name = "tufa"
version = "0.1.0"
edition = "2021"
publish = false

[dependencies]
aes-gcm = "0.10"
argon2 = "0.5"
base32 = "*"
hmac = "0.12"
sha1 = "0.10"
anyhow = "1"
clap = { version = "4", features = ["derive"] }
console = "*"
dialoguer = "*"
indicatif = "*"
diesel = { version = "2", features = ["sqlite", "returning_clauses_for_sqlite_3_35"] }
dotenv = "*"
libsqlite3-sys = { version = "*", features = ["bundled"] }
