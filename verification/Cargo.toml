[package]
name = "response_time"
version = "0.1.0"
edition = "2021"
publish = false

[dependencies]
getopts = "0.2"
iron = "0.6"
staticfile = "0.5"
