//! Resource-upload orchestration for a small GPU framework: a copy pass that
//! batches buffer and texture uploads into one submission, the planning of
//! textures and shaders, and a deterministic pseudo-random generator.

pub mod application;
pub mod copypass;
pub mod error;
pub mod random;
pub mod shader;
pub mod texture;
pub mod world;
