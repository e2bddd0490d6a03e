[package]
name = "svg_draw"
version = "0.1.0"
edition = "2021"
publish = false

[dependencies]
unicode-bidi = "*"
svgtypes = "*"
pathfinder_geometry = "*"
pathfinder_content = "*"
pathfinder_color = "*"
pathfinder_renderer = "*"
