//! The picture unit: its registers, its memories and the scanline renderer.
pub mod io;
pub mod ppu;
