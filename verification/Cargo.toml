[package]
name = "rsplayer"
version = "0.1.0"
edition = "2021"
publish = false

[dependencies]
rusty_ffmpeg = "*"
sdl2 = "*"
libc = "*"
log = "0.4"
colog = "*"
