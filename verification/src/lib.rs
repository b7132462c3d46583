//! A compute-dispatch library over a GPU command-submission API.
//!
//! Callers declare typed data buffers, attach them to shader binding slots
//! grouped by bind-group index, compile a compute pipeline from shader
//! source, dispatch a 3-D grid of workgroups, and read results back on the
//! host through a staging buffer.

pub mod binding;
pub mod buffer;
pub mod codec;
pub mod data;
pub mod device;
pub mod error;
pub mod gpu;
pub mod grouping;
pub mod layout;
pub mod policy;
pub mod shader;
