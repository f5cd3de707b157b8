[package]
name = "gltf_flatten"
version = "0.1.0"
edition = "2021"
publish = false

[dependencies]
rustc_apfloat = "=0.2.3+llvm-462a31f5a5ab"
base64 = "=0.13.1"
gltf = { version = "=1.4.1", features = ["extras", "names"] }
flatbuffers = "=25.12.19"
mikktspace = "=0.3.0"
serde_json = "*"
