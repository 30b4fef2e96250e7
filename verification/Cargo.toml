[package]
name = "supermarket_inventory"
version = "0.1.0"
edition = "2021"
publish = false

[dependencies]
time = { version = "*", features = ["formatting", "parsing"] }
serde = { version = "*", features = ["derive"] }
candid = "*"
ic-cdk = "*"
ic-cdk-macros = "*"
