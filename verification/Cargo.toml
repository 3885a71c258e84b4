[package]
name = "twsapi"
version = "0.1.0"
edition = "2021"
publish = false

[dependencies]
bigdecimal = "*"
float-cmp = "*"
log = "*"
num-traits = "*"
