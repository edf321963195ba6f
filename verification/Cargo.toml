[package]
name = "nrr"
version = "0.1.0"
edition = "2021"
publish = false

[dependencies]
ahash = "*"
clap = { version = "4", features = ["derive", "env"] }
clap_complete = { version = "4", features = ["unstable-dynamic"] }
color-eyre = "*"
ctrlc = "*"
dotenvy = "*"
indexmap = { version = "2", features = ["serde"] }
owo-colors = { version = "4", features = ["supports-colors"] }
rustix = { version = "*", features = ["fs"] }
serde = { version = "1", features = ["derive"] }
shlex = "*"
signal-hook = "*"
simd-json = "*"
strsim = "*"
terminal_size = "*"
thiserror = "*"
unicode-width = "*"
