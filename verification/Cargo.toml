[package]
name = "geo_types_3d"
version = "0.1.0"
edition = "2021"
publish = false

[dependencies]
geojson = "*"
geo-types = "*"
num-traits = "*"
rayon = "*"
approx = "*"
