[package]
name = "rule_loader"
version = "0.1.0"
edition = "2021"
publish = false

[dependencies]
compact_str = "0.7"
hashbrown = "0.14"
yaml-rust = "0.4"
