[package]
name = "reddsaver"
version = "0.4.0"
edition = "2021"
publish = false

[dependencies]
async_once = "*"
base64 = "0.13"
clap = { version = "4", features = ["cargo"] }
dotenv = "0.15"
env_logger = "0.10"
futures = "0.3"
lazy_static = "1"
log = "0.4"
md5 = "0.7"
mime = "0.3"
rand = "0.8"
random-names = "*"
regex = "1"
reqwest = { version = "0.11", features = ["json"] }
serde = { version = "1", features = ["derive"] }
serde_json = "1"
tempfile = "3"
thiserror = "1"
tokio = { version = "1", features = ["full"] }
url = "2"
which = "4"
