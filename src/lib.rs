//! Software rendering of a compositor scene into a grid of terminal cells.
//!
//! Client pixel buffers in one of eight packed 32-bit layouts are decoded
//! into textures of canonical ARGB8888 words; a frame then clears, fills and
//! blends textures into a framebuffer whose cells each show two vertically
//! stacked pixels with a lower half-block glyph.
use vstd::prelude::*;

pub mod color;
pub mod error;
pub mod format;
pub mod frame;
pub mod framebuffer;
pub mod grid;
pub mod input;
pub mod keyboard;
pub mod laws;
pub mod memory;
pub mod mouse;
pub mod renderer;
pub mod texture;

verus! {

} // verus!
