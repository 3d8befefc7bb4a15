[package]
name = "espm_core"
version = "0.1.0"
edition = "2021"
publish = false

[dependencies]
oxipng = "*"
wax = "*"
starbase_utils = { version = "*", features = ["glob", "json"] }
starbase_archive = { version = "*", features = ["tar-gz", "tar-xz"] }
reqwest = { version = "*", default-features = false, features = ["rustls-tls"] }
tokio = { version = "*", features = ["rt-multi-thread", "macros", "process", "fs"] }
serde = { version = "*", features = ["derive"] }
serde_json = "*"
swc = "*"
swc_core = { version = "*", features = ["common", "ecma_ast", "ecma_parser", "ecma_visit"] }
