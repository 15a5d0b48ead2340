[package]
name = "access_solver"
version = "0.1.0"
edition = "2021"
publish = false

[dependencies]
async-graphql-parser = "*"
async-graphql-value = "*"
