[package]
name = "bb8_ldap"
version = "0.1.0"
edition = "2021"
publish = false

[dependencies]
ldap3 = "*"
bb8 = "*"
async-trait = "*"
tokio = { version = "*", features = ["rt"] }
