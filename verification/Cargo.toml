[package]
name = "patient_catalog"
version = "0.1.0"
edition = "2021"
publish = false

[dependencies]
anyhow = "1"
clap = { version = "4", features = ["derive"] }
csv = "1"
dicom = "*"
log = "0.4"
rayon = "1"
stderrlog = "*"
thiserror = "1"
