[package]
name = "sql_ddl_to_schema"
version = "0.1.0"
edition = "2021"
publish = false

[dependencies]
linear-map = "=1.2.0"
sqlparser = "0.27"
serde_yaml = "0.9"
