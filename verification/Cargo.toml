[package]
name = "uncx_lp_locker"
version = "0.1.0"
edition = "2021"
publish = false

[dependencies]
anchor-lang = { version = "=0.30.1", features = ["init-if-needed"] }
anchor-spl = { version = "=0.30.1", default-features = false, features = ["token", "associated_token", "token_2022"] }
mpl-token-metadata = "=4.1.2"
fixed = "=1.31.0"
bytemuck = "=1.25.2"
borsh = "=0.10.4"
primitive-types = { version = "=0.12.2", default-features = false }
