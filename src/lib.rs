//! Integration logic between an immediate-mode GUI and an ECS-driven renderer:
//! batching of the GUI's draw output into GPU buffers, planning of the render
//! pass, texture ids and images, key and pointer input, and platform output.
pub mod agent;
pub mod batch;
pub mod graph;
pub mod image;
pub mod input;
pub mod keys;
pub mod output;
pub mod pass;
pub mod rect;
pub mod settings;
pub mod textures;
