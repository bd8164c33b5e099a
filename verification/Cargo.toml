[package]
name = "aftx06"
version = "0.1.0"
edition = "2021"

[dependencies]
volatile-register = "0.2"
