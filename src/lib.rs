//! A text-mode display driver over a model of the character grid's memory and
//! the display controller's cursor registers.
use vstd::prelude::*;

pub mod cga;
pub mod color;
pub mod cursor;
pub mod frame_buffer;
pub mod keyboard_demo;
pub mod text_demo;

verus! {

} // verus!
