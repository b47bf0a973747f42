[package]
name = "dwarf_tags"
version = "0.1.0"
edition = "2021"
publish = false

[dependencies]
elf = "0.7"
gimli = { version = "0.28", default-features = false, features = ["read", "std", "write"] }
