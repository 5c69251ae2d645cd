[package]
name = "gdy_model_gen"
version = "0.1.0"
edition = "2021"
publish = false

[dependencies]
castep-model-core = "*"
castep_model_generator_backend = "*"
castep-periodic-table = "*"
clap = { version = "*", features = ["derive"] }
glob = "*"
indicatif = { version = "*", features = ["rayon"] }
rayon = "*"
nalgebra = "*"
