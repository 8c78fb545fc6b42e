[package]
name = "nixpkgs-check"
version = "0.1.0"
edition = "2021"
publish = false

[dependencies]
anyhow = "1"
bytesize = "1"
console = "0.14"
crossbeam-channel = "0.5"
ctrlc = "3"
dialoguer = "0.8"
diff = "0.1"
git2 = "0.13"
os_type = "2"
serde = { version = "1", features = ["derive"] }
serde_json = "1"
structopt = "0.3"
tempfile = "3"
uuid = { version = "0.8", features = ["v4"] }
xdg = "2"
