[package]
name = "actix_diesel"
version = "0.1.0"
edition = "2021"
publish = false

[dependencies]
actix = "*"
diesel = { version = "*", features = ["r2d2"] }
futures = "*"
once_cell = "*"
r2d2 = "*"
thiserror = "*"
