//! Drawing into a firmware framebuffer of 32-bit pixels.
use vstd::prelude::*;

use crate::bytes::splice;
use crate::error::RrubError;

verus! {

#[derive(Debug, Copy, Clone, Eq, PartialEq, Structural)]
pub enum PixelFormat {
    Rgb,
    Bgr,
    NotSupported,
}

/// The four bytes of a colour in a pixel format, if the format is one the
/// loader can draw in.
pub open spec fn spec_pixel_bytes(format: PixelFormat, r: u8, g: u8, b: u8) -> Option<Seq<u8>> {
    match format {
        PixelFormat::Rgb => Some(seq![r, g, b, 0u8]),
        PixelFormat::Bgr => Some(seq![b, g, r, 0u8]),
        PixelFormat::NotSupported => None,
    }
}

pub fn pixel_bytes(format: PixelFormat, r: u8, g: u8, b: u8) -> (res: Result<[u8; 4], RrubError>)
    ensures
        spec_pixel_bytes(format, r, g, b) is None ==> res == Err::<[u8; 4], RrubError>(
            RrubError::UnsupportedColourFormat,
        ),
        spec_pixel_bytes(format, r, g, b) matches Some(px) ==> res is Ok && res->Ok_0@ == px,
{
    match format {
        PixelFormat::Rgb => {
            let px = [r, g, b, 0u8];
            assert(px@ =~= seq![r, g, b, 0u8]);
            Ok(px)
        },
        PixelFormat::Bgr => {
            let px = [b, g, r, 0u8];
            assert(px@ =~= seq![b, g, r, 0u8]);
            Ok(px)
        },
        PixelFormat::NotSupported => Err(RrubError::UnsupportedColourFormat),
    }
}

/// Where pixel (`x`, `y`) starts in a buffer of rows `stride` pixels apart:
/// `None` for a point left of or above the screen, or right of its width;
/// an error when the offset does not fit in `usize`.
pub open spec fn spec_pixel_offset(x: i32, y: i32, width: usize, stride: usize) -> Result<
    Option<usize>,
    RrubError,
> {
    if x < 0 || y < 0 || x >= width {
        Ok(None)
    } else if (y * stride + x) * 4 > usize::MAX {
        Err(RrubError::Overflow)
    } else {
        Ok(Some(((y * stride + x) * 4) as usize))
    }
}

pub fn pixel_offset(x: i32, y: i32, width: usize, stride: usize) -> (r: Result<
    Option<usize>,
    RrubError,
>)
    ensures
        r == spec_pixel_offset(x, y, width, stride),
{
    if x < 0 || y < 0 {
        return Ok(None);
    }
    let xu = x as usize;
    let yu = y as usize;
    if xu >= width {
        return Ok(None);
    }
    let row = match yu.checked_mul(stride) {
        Some(v) => v,
        None => {
            assert(y * stride > usize::MAX) by (nonlinear_arith)
                requires
                    yu * stride > usize::MAX,
                    yu == y,
            ;
            return Err(RrubError::Overflow);
        },
    };
    let pix = match row.checked_add(xu) {
        Some(v) => v,
        None => return Err(RrubError::Overflow),
    };
    match pix.checked_mul(4) {
        Some(v) => Ok(Some(v)),
        None => Err(RrubError::Overflow),
    }
}

/// Colours pixel (`x`, `y`) of `buffer`. Points off the screen are skipped;
/// a pixel that would lie past the end of the buffer is refused.
pub fn plot_pixel(
    buffer: &mut Vec<u8>,
    width: usize,
    stride: usize,
    format: PixelFormat,
    x: i32,
    y: i32,
    rgb: (u8, u8, u8),
) -> (r: Result<(), RrubError>)
    ensures
        match spec_pixel_offset(x, y, width, stride) {
            Err(e) => r == Err::<(), RrubError>(e) && final(buffer)@ == old(buffer)@,
            Ok(None) => r is Ok && final(buffer)@ == old(buffer)@,
            Ok(Some(off)) => match spec_pixel_bytes(format, rgb.0, rgb.1, rgb.2) {
                None => r == Err::<(), RrubError>(RrubError::UnsupportedColourFormat)
                    && final(buffer)@ == old(buffer)@,
                Some(px) => if off + 4 <= old(buffer)@.len() {
                    r is Ok && final(buffer)@ == splice(old(buffer)@, off as int, px)
                } else {
                    r == Err::<(), RrubError>(RrubError::Bounds) && final(buffer)@ == old(buffer)@
                },
            },
        },
{
    let off = match pixel_offset(x, y, width, stride) {
        Err(e) => return Err(e),
        Ok(None) => return Ok(()),
        Ok(Some(o)) => o,
    };
    let px = pixel_bytes(format, rgb.0, rgb.1, rgb.2)?;
    let n = buffer.len();
    if off > n || 4 > n - off {
        return Err(RrubError::Bounds);
    }
    crate::bytes::copy_into(buffer, off, &px);
    Ok(())
}

/// A framebuffer driver: a back buffer of 32-bit pixels and a way to show it.
pub trait FrameBuffer: Sized {
    fn init_fb_backend(width: usize, height: usize) -> Result<Self, RrubError>;

    fn width(&self) -> usize;

    fn height(&self) -> usize;

    /// Pixels from the start of one row to the start of the next.
    fn stride(&self) -> usize;

    fn pixel_format(&self) -> PixelFormat;

    fn buffer(&mut self) -> &mut Vec<u8>;

    /// Copies the back buffer to the screen.
    fn flush(&mut self);
}

pub struct GraphicalDisplay<B: FrameBuffer> {
    backend: B,
}

impl<B: FrameBuffer> GraphicalDisplay<B> {
    pub fn new(backend: B) -> (r: GraphicalDisplay<B>) {
        GraphicalDisplay { backend }
    }

    /// Width and height in pixels.
    pub fn size(&self) -> (r: (usize, usize)) {
        (self.backend.width(), self.backend.height())
    }

    /// Colours one pixel of the back buffer, as [`plot_pixel`] does.
    pub fn draw_pixel(&mut self, x: i32, y: i32, rgb: (u8, u8, u8)) -> (r: Result<(), RrubError>) {
        let width = self.backend.width();
        let stride = self.backend.stride();
        let format = self.backend.pixel_format();
        plot_pixel(self.backend.buffer(), width, stride, format, x, y, rgb)
    }

    pub fn flush(&mut self) {
        self.backend.flush();
    }
}

} // verus!
