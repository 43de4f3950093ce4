[package]
name = "terse"
version = "0.1.0"
edition = "2021"
publish = false

[dependencies]
anyhow = "1"
bytesize = "*"
capitalize = "*"
clap = { version = "4", features = ["derive"] }
colored = "*"
crossterm = "*"
derive-new = "*"
directories = "*"
indent_write = "*"
indoc = "2"
parking_lot = "*"
ratatui = "*"
reqwest = { version = "*", default-features = false, features = ["blocking", "json"] }
serde = { version = "1", features = ["derive"] }
serde_json = "1"
text_io = "*"
thiserror = "*"
time-format = "*"
url = "2"
