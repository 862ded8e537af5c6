[package]
name = "geo_marching_squares"
version = "0.1.0"
edition = "2021"
publish = false

[dependencies]
geojson = "*"
rayon = "*"
serde = { version = "*", features = ["derive"] }
serde_json = "*"
thiserror = "*"
