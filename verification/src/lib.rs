//! A verified markdown rendering engine: it consumes a flat, position-tagged
//! stream of parsed markdown events and reconstructs the implied document
//! tree as abstract view nodes, wiring every rendered fragment back to the
//! byte range of source that produced it. The external parser stands behind
//! a small trusted boundary in `parse`; the stack machine in `engine`, the
//! pipeline in `render`, and the laws in `laws` are verified.

pub mod events;
pub mod view;
pub mod engine;
pub mod render;
pub mod laws;
pub mod parse;
