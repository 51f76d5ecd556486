[package]
name = "headers-content-md5"
version = "0.1.0"
edition = "2021"
publish = false

[dependencies]
base64 = "0.22"
headers = "0.4"
http = "1"
