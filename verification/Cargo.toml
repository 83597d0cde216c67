[package]
name = "nblm"
version = "0.1.0"
edition = "2021"
publish = false

[dependencies]
url = "*"
urlencoding = "*"
serde_json = "*"
colored = "*"
serde = { version = "*", features = ["derive"] }
reqwest = { version = "*", default-features = false, features = ["json"] }
tokio = { version = "*", features = ["macros", "rt-multi-thread", "net", "io-util", "time", "process", "sync", "fs"] }
async-trait = "*"
bytes = "*"
clap = { version = "*", features = ["derive", "env"] }
humantime = "*"
webbrowser = "*"
mime_guess = "*"
time = "*"
jsonwebtoken = "*"
