[package]
name = "plurimus_doom"
version = "0.1.0"
edition = "2021"
publish = false

[dependencies]
doomgeneric = "=0.3.0"
plurimus = "0.8"
bevy_app = "0.19"
bevy_ecs = "0.19"
libc = "=0.2.191"
ratatui-widgets = "0.3"
