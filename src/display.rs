//! Pixel formats of legacy (VESA) linear framebuffers.
use vstd::prelude::*;

verus! {

#[derive(Debug, Clone, Copy, PartialEq, Eq, Structural)]
pub enum PixelFormat {
    Rgb8888,
    Rgb888,
    Rgb565,
    Rgb555,
    Unknown,
}

impl PixelFormat {
    pub fn bits_per_pixel(self) -> (r: usize)
        ensures
            r == match self {
                PixelFormat::Rgb8888 => 32usize,
                PixelFormat::Rgb888 => 24usize,
                PixelFormat::Rgb565 => 16usize,
                PixelFormat::Rgb555 => 15usize,
                PixelFormat::Unknown => 0usize,
            },
    {
        match self {
            PixelFormat::Rgb8888 => 32,
            PixelFormat::Rgb888 => 24,
            PixelFormat::Rgb565 => 16,
            PixelFormat::Rgb555 => 15,
            PixelFormat::Unknown => 0,
        }
    }

    /// Bytes one pixel takes: its bits rounded up to whole bytes.
    pub fn bytes_per_pixel(self) -> (r: usize)
        ensures
            r == match self {
                PixelFormat::Rgb8888 => 4usize,
                PixelFormat::Rgb888 => 3usize,
                PixelFormat::Rgb565 => 2usize,
                PixelFormat::Rgb555 => 2usize,
                PixelFormat::Unknown => 0usize,
            },
    {
        match self {
            PixelFormat::Rgb8888 => 4,
            PixelFormat::Rgb888 => 3,
            PixelFormat::Rgb565 => 2,
            PixelFormat::Rgb555 => 2,
            PixelFormat::Unknown => 0,
        }
    }
}

} // verus!
