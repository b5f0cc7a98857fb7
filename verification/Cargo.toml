[package]
name = "cl_picker"
version = "0.1.0"
edition = "2021"
publish = false

[dependencies]
regex = "*"
cl3 = "*"
inquire = "*"
dotenv = "*"
