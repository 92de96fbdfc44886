[package]
name = "style_context"
version = "0.1.0"
edition = "2021"
publish = false

[dependencies]
app_units = "=0.7.8"
euclid = "=0.22.14"
parking_lot = "=0.12.5"

[dev-dependencies]
rayon = "1"
