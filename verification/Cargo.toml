[package]
name = "slidemeta"
version = "0.1.0"
edition = "2021"
publish = false

[dependencies]
md5 = "*"
junk_file = "*"
mime_guess = "*"
chrono = "*"
anyhow = "*"
async-stream = "*"
dirs = "*"
futures = "*"
image = "*"
nom-exif = "*"
num_cpus = "*"
serde = { version = "*", features = ["derive"] }
serde_json = "*"
thiserror = "*"
tokio = { version = "*", features = ["full"] }
