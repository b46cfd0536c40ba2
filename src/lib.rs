//! Plain-value wrappers over a graphics driver's object model: vertex
//! arrays, buffers, vertex attribute slots and shader programs. Each
//! operation yields the driver call to make as a [`command::GlCommand`];
//! [`context::GlContext`] tracks what those calls do to the driver's state.

pub mod command;
pub mod context;
pub mod laws;
pub mod objects;
pub mod program_build;
pub mod shader;
