use vstd::prelude::*;
use crate::colors::Colors;
use crate::layout::{fits3, shape_fits3};

verus! {

/// The sample count of a packed `width` x `height` grid of pixels with
/// `channels` samples each.
pub open spec fn packed_len(width: u32, height: u32, format: Colors) -> int {
    height as int * width as int * format.spec_channels() as int
}

/// The array shape `(rows, cols, channels)` that a pixel grid occupies.
pub open spec fn grid_shape(width: u32, height: u32, format: Colors) -> (usize, usize, usize) {
    (height as usize, width as usize, format.spec_channels() as usize)
}

/// A read-only pixel buffer: `height` rows of `width` pixels, each pixel
/// being `format.channels()` consecutive samples, rows one after the other.
/// The samples are borrowed, never copied.
#[derive(Clone, Copy, Debug)]
pub struct PixelBuffer<'a> {
    pub width: u32,
    pub height: u32,
    pub format: Colors,
    pub samples: &'a [u8],
}

/// A pixel buffer whose samples are borrowed exclusively, so that a view made
/// from it can write them.
pub struct PixelBufferMut<'a> {
    pub width: u32,
    pub height: u32,
    pub format: Colors,
    pub samples: &'a mut [u8],
}

/// Decides whether `len` samples are exactly a packed `width` x `height`
/// grid of `format` whose shape an array view can take.
pub fn is_packed_grid(width: u32, height: u32, format: Colors, len: usize) -> (r: bool)
    ensures
        r == (len == packed_len(width, height, format) && fits3(grid_shape(width, height, format))),
{
    let shape = (height as usize, width as usize, format.channels());
    if !shape_fits3(shape) {
        return false;
    }
    proof {
        let (h, w, c) = (shape.0 as int, shape.1 as int, shape.2 as int);
        assert(h * w <= h * w * c) by (nonlinear_arith)
            requires
                h >= 0,
                w >= 0,
                c >= 1,
        ;
    }
    match shape.0.checked_mul(shape.1) {
        None => false,
        Some(px) => match px.checked_mul(shape.2) {
            None => false,
            Some(n) => n == len,
        },
    }
}

impl<'a> PixelBuffer<'a> {
    /// The samples are exactly the packed grid, and the grid's shape is one
    /// that an array view can take.
    pub open spec fn wf(&self) -> bool {
        &&& self.samples@.len() == packed_len(self.width, self.height, self.format)
        &&& fits3(grid_shape(self.width, self.height, self.format))
    }

    /// Wraps `samples` as a `width` x `height` buffer of `format`, or gives
    /// `None` when the sample count is not the packed size of that grid.
    pub fn new(width: u32, height: u32, format: Colors, samples: &'a [u8]) -> (r: Option<
        PixelBuffer<'a>,
    >)
        ensures
            r is Some <==> (samples@.len() == packed_len(width, height, format) && fits3(
                grid_shape(width, height, format),
            )),
            r is Some ==> r->0.wf(),
            r is Some ==> (r->0.width == width && r->0.height == height && r->0.format == format
                && r->0.samples@ == samples@),
    {
        if is_packed_grid(width, height, format, samples.len()) {
            Some(PixelBuffer { width, height, format, samples })
        } else {
            None
        }
    }
}

/// The array shape `(rows, cols)` that a single-channel pixel grid occupies.
pub open spec fn grid_shape2(width: u32, height: u32) -> (usize, usize) {
    (height as usize, width as usize)
}

/// What a pixel buffer is: its dimensions, its channel layout and its
/// samples.
pub open spec fn buffer_model(b: PixelBuffer) -> (u32, u32, Colors, Seq<u8>) {
    (b.width, b.height, b.format, b.samples@)
}

impl<'a> PixelBufferMut<'a> {
    /// The samples are exactly the packed grid, and the grid's shape is one
    /// that an array view can take.
    pub open spec fn wf(&self) -> bool {
        &&& self.samples@.len() == packed_len(self.width, self.height, self.format)
        &&& fits3(grid_shape(self.width, self.height, self.format))
    }

    /// Wraps `samples` as a `width` x `height` buffer of `format`, or gives
    /// `None` when the sample count is not the packed size of that grid.
    pub fn new(width: u32, height: u32, format: Colors, samples: &'a mut [u8]) -> (r: Option<
        PixelBufferMut<'a>,
    >)
        ensures
            r is Some <==> (old(samples)@.len() == packed_len(width, height, format) && fits3(
                grid_shape(width, height, format),
            )),
            r is Some ==> r->0.wf(),
            r matches Some(b) ==> (b.width == width && b.height == height && b.format == format
                && b.samples@ == old(samples)@),
    {
        if is_packed_grid(width, height, format, samples.len()) {
            Some(PixelBufferMut { width, height, format, samples })
        } else {
            None
        }
    }
}

} // verus!
