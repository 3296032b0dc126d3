[package]
name = "castep_dos_core"
version = "0.1.0"
edition = "2021"
publish = false

[dependencies]
clap = { version = "4", features = ["derive"] }
plotters = { version = "0.3", default-features = false, features = ["svg_backend", "line_series"] }
rayon = "1"
serde = { version = "1", features = ["derive"] }
thiserror = "2"
toml = "0.8"
