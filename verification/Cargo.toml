[package]
name = "distance_steam_data_client"
version = "0.1.0"
edition = "2021"
publish = false

[dependencies]
anyhow = "*"
prost = "*"
tonic = "*"
