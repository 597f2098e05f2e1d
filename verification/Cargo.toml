[package]
name = "image_resolution_finder"
version = "0.1.0"
edition = "2021"
publish = false

[dependencies]
anyhow = "*"
async-recursion = "*"
image = "*"
log = "*"
mime_guess = "*"
serde = { version = "*", features = ["derive"] }
serde_yml = "*"
tokio = { version = "*", features = ["macros", "rt-multi-thread"] }
