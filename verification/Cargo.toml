[package]
name = "openapi_lambda"
version = "0.1.0"
edition = "2021"
publish = false

[dependencies]
anyhow = "1"
async-trait = "0.1"
aws_lambda_events = "*"
backtrace = "0.3"
base64 = "0.21"
chrono = "0.4"
convert_case = "0.6"
futures = "0.3"
headers = "*"
http = "*"
indexmap = { version = "2", features = ["serde"] }
itertools = "*"
lambda_runtime = "*"
log = "0.4"
mime = "0.3"
openapiv3 = "2"
prettyplease = "0.2"
proc-macro2 = "1"
quote = "1"
serde = { version = "1", features = ["derive"] }
serde_json = "1"
serde_path_to_error = "0.1"
serde_yaml = "0.9"
syn = { version = "2", features = ["full"] }
thiserror = "1"
unicode-ident = "1"
unzip-n = "0.1"
urlencoding = "2"
