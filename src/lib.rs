//! Core logic of a small free-fly rendering engine: the flat entity scene and
//! the order in which it is drawn and updated, the per-model texture cache,
//! the skybox's GPU handles, and the decisions that turn polled key state into
//! camera movements. The floating-point camera and matrix math, and every call
//! into the window system and the GPU, stand around this crate.

pub mod camera;
pub mod transform;
pub mod scene;
pub mod skybox;
pub mod model;
pub mod input;
