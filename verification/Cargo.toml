[package]
name = "glscene"
version = "0.1.0"
edition = "2021"
publish = false

[dependencies]
nalgebra-glm = "*"
serde = { version = "1", features = ["derive"] }
stdweb = "0.4"
stdweb-derive = "0.5"
yew = { version = "0.14", features = ["std_web"] }
