[package]
name = "planet_generator"
version = "0.1.0"
edition = "2021"
publish = false

[dependencies]
seeded_dice_roller = "*"
serde = { version = "1", features = ["derive"] }
usvg = "0.22"
