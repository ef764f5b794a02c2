//! Escape-time rendering of Julia sets: the colour palette and the pixel
//! buffer that a frame is written into.

pub mod frame;
pub mod palette;
