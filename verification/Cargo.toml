[package]
name = "user_account"
version = "0.1.0"
edition = "2021"
publish = false

[dependencies]
argentum_standard_business = "=0.2.6"
argentum_log_business = "=0.2.6"
thiserror = "=1.0.69"
