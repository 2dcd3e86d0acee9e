[package]
name = "opentelemetry-datadog-cloudflare"
version = "0.1.0"
edition = "2021"
publish = false

[dependencies]
async-trait = "0.1"
futures-util = "0.3"
http = "0.2"
itertools = "0.10"
opentelemetry = "0.17"
opentelemetry-http = "0.6"
opentelemetry-semantic-conventions = "0.9"
prost = "0.11"
thiserror = "1"
