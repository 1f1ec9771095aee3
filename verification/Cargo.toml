[package]
name = "secure_local_storage"
version = "0.1.0"
edition = "2021"
publish = false

[dependencies]
anyhow = "=1.0.104"
base64 = "=0.13.1"
log = "=0.4.34"
pickledb = { version = "=0.5.1", default-features = false, features = ["cbor"] }
tink-aead = "=0.3.0"
tink-core = "=0.3.0"
tink-daead = "=0.3.0"
tink-prf = "=0.3.0"
tink-proto = "=0.3.0"

[dev-dependencies]
tempfile = "=3.27.0"
