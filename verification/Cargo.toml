[package]
name = "gl_playground"
version = "0.1.0"
edition = "2021"
publish = false

[dependencies]
image = "0.24"
glam = "0.24"
glfw = "0.51"
gl = "0.14"
bytemuck = { version = "1", features = ["derive"] }
log = "0.4"
thiserror = "1"
tracing = "0.1"
tracing-subscriber = "0.3"
