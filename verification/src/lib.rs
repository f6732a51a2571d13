//! The decisions of a live-reloading fragment-shader renderer, as verified
//! functions on plain values.
//!
//! A watcher decides when a shader file is read and published; a pipeline
//! builder decides which fragment program is linked when compilation may
//! fail; the uniform resources fix where elapsed time and resolution lie in
//! their buffer; the render state takes resizes, reloads and frames. The
//! program around the library opens files, talks to the GPU and runs the
//! event loop, and hands every outcome back as an event.

pub mod clock;
pub mod events;
pub mod pipeline;
pub mod state;
pub mod uniforms;
pub mod watcher;
