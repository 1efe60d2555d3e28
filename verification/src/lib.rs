//! An immediate-mode 2D drawing layer with exact geometry.
//!
//! Drawing calls arrive in screen-space pixels and leave as tessellated
//! draw commands in normalized device coordinates. Every coordinate the
//! layer computes is an exact fraction; the two shapes that need irrational
//! numbers (the unit normal of a line, the points of a circle) describe them
//! symbolically and leave the rounding to whoever uploads the vertices.
//! A frame controller decides, step by step, what the presentation backend
//! has to do next.

pub mod ratio;
pub mod color;
pub mod surface;
pub mod ndc;
pub mod vertex;
pub mod command;
pub mod tessellate;
pub mod frame;
pub mod renderer;
pub mod session;
