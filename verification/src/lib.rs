//! Verified core of a small console renderer: the image data set that serves
//! decoded bitmaps and QR codes to the per-frame renderer, together with the
//! pure helpers (colours, logger configuration, keyboard input rules) that
//! the rest of the program builds on.

pub mod constant;
pub mod log;
pub mod platform;
pub mod render;
pub mod text;
pub mod utils;
