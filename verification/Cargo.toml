[package]
name = "sqlx_type"
version = "0.1.0"
edition = "2021"
publish = false

[dependencies]
ariadne = "0.1"
syn = "1"
sql-type = "*"
once_cell = "1"
