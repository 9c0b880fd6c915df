[package]
name = "focus_router"
version = "0.1.0"
edition = "2021"
publish = false

[dependencies]
serde_json = "=1.0.151"
clap = "4"
i3_ipc = "*"
i3ipc-types = "*"
swayipc = "*"
swayipc-types = "*"
hyprland = "*"
neovim-lib = "*"
rmp = "=0.8.11"
libc = "0.2"
