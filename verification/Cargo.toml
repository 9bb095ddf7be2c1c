[package]
name = "audiovert"
version = "0.1.0"
edition = "2021"
publish = false

[dependencies]
anyhow = "1"
clap = { version = "4", features = ["derive"] }
ignore = "0.4"
jiff = "*"
lofty = "*"
relative-path = "*"
sevenz-rust2 = "*"
termcolor = "1"
unrar = "*"
zip = "*"
