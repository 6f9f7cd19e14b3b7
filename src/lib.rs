//! Escape-time fractal rendering: dynamics, escape evaluation, normalization,
//! palette coloring and the pipeline that packs a frame into an RGBA buffer.
pub mod color;
pub mod color_map;
pub mod coloring;
pub mod dynamics;
pub mod escape;
pub mod export;
pub mod fractal;
pub mod image_config;
pub mod mandelbrot;
pub mod normalize;
pub mod palette;
mod parallel;
pub mod scalar;
