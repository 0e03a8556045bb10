//! Audio from a compact note notation, and playback of decoded samples.
//!
//! `script` parses rows of notes, `render` lays the notes of a row out in samples,
//! `synth` holds the synthesis settings and takes requests, `playback` holds the shared
//! sample buffer and the render callback, and `stream` orders the steps that build an
//! output stream. Each engine reports on its commands through a status register.
pub mod notes;
pub mod numbers;
pub mod playback;
pub mod render;
pub mod script;
pub mod status;
pub mod stream;
pub mod synth;
pub mod text;
