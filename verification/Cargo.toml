[package]
name = "shapes_interop"
version = "0.1.0"
edition = "2021"
publish = false

[dependencies]
rand = "0.8"
rustdds = "0.4"
mio = "0.6"
mio-extras = "2"
clap = "2"
ctrlc = "3"
log = "0.4"
log4rs = "1"
serde = { version = "1", features = ["derive"] }
