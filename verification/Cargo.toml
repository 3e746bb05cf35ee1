[package]
name = "s3rm-rs"
version = "0.2.0"
edition = "2021"
publish = false

[dependencies]
anyhow = "=1.0.104"
async-channel = "=2.5.0"
async-trait = "=0.1.92"
aws-config = "1"
aws-sdk-s3 = { version = "=1.157.0", default-features = false }
aws-smithy-runtime-api = "=1.19.2"
aws-smithy-types = "=1.9.1"
aws-smithy-types-convert = { version = "=0.60.14", features = ["convert-chrono"] }
byte-unit = "=5.2.6"
chrono = "=0.4.45"
clap = { version = "=4.6.7", features = ["derive", "env"] }
clap_complete = "=4.6.11"
clap-verbosity-flag = "=3.0.4"
fancy-regex = "=0.14.0"
indicatif = "=0.17.11"
log = "=0.4.35"
mlua = { version = "=0.10.5", features = ["lua54", "vendored", "async", "send"] }
simple_moving_average = "=1.0.2"
tokio = { version = "=1.54.1", features = ["full"] }
tokio-util = "=0.7.20"
tracing = "=0.1.44"
tracing-subscriber = { version = "0.3", features = ["env-filter", "json"] }
url = "=2.5.8"
urlencoding = "=2.1.3"

[dev-dependencies]
tempfile = "=3.27.0"
