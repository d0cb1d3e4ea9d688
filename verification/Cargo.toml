[package]
name = "command_handler"
version = "0.1.0"
edition = "2021"
publish = false

[dependencies]
uuid = "=1.27.0"
log = "=0.4.34"
kafka = { version = "=0.10.0", default-features = false }
schema_registry_converter = { version = "=5.0.0", default-features = false, features = ["avro", "blocking"] }
apache-avro = "0.22"
dotenv = "=0.15.0"
