[package]
name = "serialization_data"
version = "0.1.0"
edition = "2021"
publish = false

[dependencies]
multicodec = "=0.1.0"
rlay_ontology = "=0.2.6"
serde_cbor = "=0.10.2"
