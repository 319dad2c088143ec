//! Core of a small real-time cube viewer: the keyboard state, the per-frame
//! decisions drawn from it, the cube mesh with its vertex layout, and the
//! life cycle of the shader program. Everything here works on plain values;
//! windowing, GPU calls and camera arithmetic belong to the caller.

pub mod frame;
pub mod input;
pub mod layout;
pub mod mesh;
pub mod shader;
pub mod shader_program;
