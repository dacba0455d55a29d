//! A rotating, drag-controlled triangle drawn with OpenGL inside an immediate-mode
//! GUI, with the application state that hosts it.
//!
//! The GPU work is described here as plain values: the library decides which GL
//! calls are made, in which order and with which handles, and the host executes
//! them against a real context and reports back what the driver answered.
pub mod canvas;
pub mod gl;
pub mod setup;
pub mod shader;
pub mod shell;
pub mod triangle;
