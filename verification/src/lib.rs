//! A text-mode terminal driver for a fixed 25 x 80 grid of character cells,
//! with its behaviour stated over a mathematical model of the screen.

pub mod buffer;
pub mod color;
pub mod laws;
pub mod screen;
pub mod terminal;
pub mod writer;
