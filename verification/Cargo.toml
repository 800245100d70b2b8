[package]
name = "convex_doctor"
version = "0.1.0"
edition = "2021"
publish = false

[dependencies]
glob = "=0.3.4"
serde = { version = "=1.0.229", features = ["derive"] }
serde_json = "=1.0.154"
toml = "0.8"
clap = { version = "=4.6.7", features = ["derive"] }
owo-colors = "=4.4.0"
oxc_allocator = "=0.115.0"
oxc_ast = "=0.115.0"
oxc_ast_visit = "=0.115.0"
oxc_parser = "=0.115.0"
oxc_span = "=0.115.0"
rayon = "=1.12.0"
