//! An interactive starfield model.
//!
//! The library holds the verified core of a pointer-driven starfield: star
//! generation from uniform draws, the fixed-magnitude repulsion rule applied
//! on every pointer move, and the frame of drawing commands that a render
//! pass must issue. Geometry is carried in fixed-point coordinates (65536
//! units per pixel), so every rule is stated and proved over integers; the
//! thin shell that owns the canvas converts to pixels at the edge.

pub mod geom;
pub mod star;
pub mod frame;
pub mod controller;
