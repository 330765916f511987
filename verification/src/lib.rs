//! Input handling, animation rates, mesh data and frame decisions of a small
//! spinning-cube renderer, with the GPU and window work left to the caller.
pub mod app;
pub mod cube;
pub mod direction;
pub mod handle_input;
pub mod keys;
pub mod shape_util;
pub mod world;
