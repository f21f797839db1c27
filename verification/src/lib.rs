//! A driver for the 80 x 25 text-mode display: bytes and colours in, cells on
//! the screen out, with line wrapping, scrolling and sanitising of bytes that
//! the display cannot show.

pub mod buffer;
pub mod cell;
pub mod color;
pub mod laws;
pub mod screen;
pub mod writer;

pub use color::{Color, ColorCode};
pub use writer::{Writer, _print, _println};
