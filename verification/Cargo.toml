[package]
name = "bits_client"
version = "0.1.0"
edition = "2021"
publish = false

[dependencies]
comedy = "=0.1.0"
failure = "=0.1.8"
failure_derive = "=0.1.8"
guid_win = "=0.1.0"
