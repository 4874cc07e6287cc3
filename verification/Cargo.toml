[package]
name = "slurm_tui"
version = "0.1.0"
edition = "2021"
publish = false

[dependencies]
ratatui = "=0.30.2"
crossterm = "=0.29.0"
