[package]
name = "eucalyptus_twig"
version = "0.1.0"
edition = "2021"
publish = false

[dependencies]
serde = { version = "*", features = ["derive"] }
serde_json = "*"
toml = "*"
wayland-client = "*"
wayland-protocols = { version = "*", features = ["client", "staging"] }
zbus = "*"
