[package]
name = "dicom_harvest"
version = "0.1.0"
edition = "2021"
publish = false

[dependencies]
anyhow = "=1.0.104"
clap = { version = "=4.6.7", features = ["derive"] }
dicom-core = "=0.10.0"
dicom-dictionary-std = "=0.10.0"
dicom-object = "=0.10.0"
log = "=0.4.34"
serde_json = { version = "=1.0.154", features = ["preserve_order"] }
stderrlog = "=0.6.0"
tokio = { version = "=1.54.1", features = ["rt-multi-thread", "macros"] }
walkdir = "=2.5.0"
