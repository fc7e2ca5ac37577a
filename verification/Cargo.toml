[package]
name = "shortwave"
version = "0.1.0"
edition = "2021"
publish = false

[dependencies]
indexmap = "1.9"
url = "2"
Inflector = "0.11"
rand = "0.8"
serde = { version = "1", features = ["derive"] }
serde_json = "1"
thiserror = "1"
once_cell = "1"
futures = "0.3"
futures-util = "0.3"
isahc = { version = "1", features = ["json"] }
async-std-resolver = "*"
glib = "*"
gio = "*"
gtk4 = "*"
libadwaita = "*"
