[package]
name = "phoenix_seat_manager"
version = "0.1.0"
edition = "2021"
publish = false

[dependencies]
phoenix-v1 = "=0.2.4"
solana-program = "=1.14.9"
spl-token = { version = "=3.5.0", features = ["no-entrypoint"] }
spl-associated-token-account = { version = "=1.1.1", features = ["no-entrypoint"] }
bytemuck = "=1.13.0"
