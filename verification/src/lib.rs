//! The verified core of a cellular-automaton board viewer: the board's
//! geometry, packed cell colours, birth/survival rules, the double-buffered
//! simulation state, image-to-board sampling, key handling and playback timing.

pub mod instance;
pub mod grid;
pub mod rules;
pub mod image_decode;
pub mod simulation;
pub mod camera;
pub mod state;
pub mod surface;
pub mod color_hex;
pub mod hash;

