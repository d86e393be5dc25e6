[package]
name = "tracker_tui"
version = "0.1.0"
edition = "2021"
publish = false

[dependencies]
ratatui = "=0.30.2"
crossterm = "=0.29.0"
rtrb = "=0.3.6"
realfft = "=3.5.1"
legato = "=0.3.0"
cpal = "=0.18.2"
