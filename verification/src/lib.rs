//! Resource bookkeeping, layouts, input handling and game rules of a small
//! wgpu/winit rendering engine, with their contracts proved by Verus.
//!
//! The GPU work itself (creating buffers, pipelines and surfaces) and the
//! floating-point camera and physics code live in the companion application
//! crate; everything here works on plain values.
#![allow(unused_imports)]

pub mod billboard;
pub mod bind_group;
pub mod bytes;
pub mod camera;
pub mod compute_pass;
pub mod engine;
pub mod game;
pub mod handle;
pub mod layout;
pub mod object;
pub mod registry;
pub mod render_pass;
pub mod renderer;
pub mod shader;
pub mod texture;
pub mod types;
pub mod window;
