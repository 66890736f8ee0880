[package]
name = "gpui_ohos"
version = "0.1.0"
edition = "2021"
publish = false

[dependencies]
anyhow = "1"
futures = "0.3"
image = { version = "=0.25.10", default-features = false }
log = "0.4"
raw-window-handle = "0.6"
rustc-hash = "2"
uuid = "=1.29.0"
openharmony-ability = "=1.0.0-beta.5"
openharmony-ability-plugin-app-control = "=1.0.0-beta.5"
openharmony-ability-plugin-permission = "=1.0.0-beta.5"
openharmony-ability-plugin-url = "=1.0.0-beta.5"
openharmony-ability-plugin-window = "=1.0.0-beta.5"
ohos-asset-binding = "=0.1.6"
ohos-hilog-binding = { version = "=0.2.5", features = ["log"] }
