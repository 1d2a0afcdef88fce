[package]
name = "mp3_player"
version = "0.1.0"
edition = "2021"
publish = false

[dependencies]
clap = "*"
crossterm = "*"
dialoguer = "*"
parking_lot = "*"
rodio = "*"
walkdir = "*"
