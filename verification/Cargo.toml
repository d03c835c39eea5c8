[package]
name = "ptyview"
version = "0.1.0"
edition = "2021"
publish = false

[dependencies]
alacritty_terminal = "*"
pancurses = "*"
