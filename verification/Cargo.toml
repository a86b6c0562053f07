[package]
name = "acoustic_field_viewer"
version = "0.1.0"
edition = "2021"
publish = false

[dependencies]
vecmath = "=1.0.0"
quaternion = "=2.0.0"
camera_controllers = "0.31.0"
shader_version = "0.6.0"
find_folder = "0.3.0"
gfx = "0.18.3"
gfx_device_gl = "0.16.2"
piston_window = "0.108.0"
scarlet = "1.1.0"
