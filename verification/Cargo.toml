[package]
name = "openbook_twap"
version = "0.1.0"
edition = "2021"
publish = false

[dependencies]
anchor-lang = "=0.27.0"
bytemuck = "=1.25.2"
num = "=0.4.3"
openbook-v2 = "=0.1.0"
solana-security-txt = "=1.1.3"
