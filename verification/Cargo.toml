[package]
name = "druid_core"
version = "0.1.0"
edition = "2021"
publish = false

[dependencies]
kurbo = "0.8"
gdk = "0.13"
