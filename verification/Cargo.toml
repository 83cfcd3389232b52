[package]
name = "ability_clipboard"
version = "0.1.0"
edition = "2021"
publish = false

[dependencies]
base64 = "0.22"
png = "0.17"
serde_json = "1"
log = "0.4"
napi-ohos = "*"
napi-derive-ohos = "*"
ohos-display-binding = "*"
