[package]
name = "cosmo_svg_animation_lib"
version = "0.1.0"
edition = "2021"
publish = false

[dependencies]
leptos = { version = "*", features = ["csr"] }
leptos-use = { version = "*" }
getrandom = { version = "*" }
console_error_panic_hook = { version = "*" }
