use vstd::prelude::*;
use crate::colors::Colors;
use crate::layout::{
    fits2, fits3, is_standard2, is_standard3, lemma_fits_single_channel, row_major_strides2,
    row_major_strides3, shape_fits2, shape_fits3, strides2_int, strides3_int,
};
use crate::pixel::{buffer_model, grid_shape, grid_shape2, PixelBuffer, PixelBufferMut};
use crate::view::{
    color_dim, color_from_samples, color_from_samples_mut, color_mut_samples, color_mut_shape,
    color_mut_strides, color_samples, color_shape, color_strides, color_to_slice, gray_dim,
    gray_from_samples, gray_from_samples_mut, gray_mut_samples, gray_mut_shape, gray_mut_strides,
    gray_samples, gray_shape, gray_strides, gray_to_slice, ColorView, ColorViewMut, GrayView,
    GrayViewMut,
};

verus! {

/// Wraps a pixel buffer or an array view so that it can be reinterpreted as
/// the other, without copying a sample.
pub struct NdImage<T>(pub T);

/// The pixel buffer that a `(rows, cols)` view with these strides and
/// elements reinterprets as: a `Luma` buffer of `cols` x `rows`, present only
/// when the elements lie in one row-major run and the grid fits a pixel
/// buffer's `u32` dimensions.
pub open spec fn buffer_from_gray(shape: (usize, usize), strides: (int, int), samples: Seq<u8>) -> Option<
    (u32, u32, Colors, Seq<u8>),
> {
    if is_standard2(shape, strides) && shape.0 <= u32::MAX && shape.1 <= u32::MAX && fits2(shape) {
        Some((shape.1 as u32, shape.0 as u32, Colors::Luma, samples))
    } else {
        None
    }
}

/// The pixel buffer that a `(rows, cols, channels)` view with these strides
/// and elements reinterprets as when `format` is requested: a buffer of
/// `cols` x `rows` tagged `format`, present only when the channel axis has
/// exactly `format`'s channel count, the elements lie in one row-major run and
/// the grid fits a pixel buffer's `u32` dimensions.
pub open spec fn buffer_from_color(
    shape: (usize, usize, usize),
    strides: (int, int, int),
    samples: Seq<u8>,
    format: Colors,
) -> Option<(u32, u32, Colors, Seq<u8>)> {
    if shape.2 == format.spec_channels() && is_standard3(shape, strides) && shape.0 <= u32::MAX
        && shape.1 <= u32::MAX && fits3(shape) {
        Some((shape.1 as u32, shape.0 as u32, format, samples))
    } else {
        None
    }
}

impl<'a> NdImage<PixelBuffer<'a>> {
    /// Views a single-channel buffer as a `(height, width)` array over the
    /// same samples. Never fails.
    pub fn into_gray_view(self) -> (r: GrayView<'a>)
        requires
            self.0.wf(),
            self.0.format == Colors::Luma,
        ensures
            gray_shape(r) == grid_shape2(self.0.width, self.0.height),
            strides2_int(gray_strides(r)) == row_major_strides2(gray_shape(r)),
            gray_samples(r) == self.0.samples@,
    {
        let NdImage(b) = self;
        let shape = (b.height as usize, b.width as usize);
        proof {
            lemma_fits_single_channel(grid_shape(b.width, b.height, b.format));
        }
        gray_from_samples(shape, b.samples)
    }

    /// Views a buffer of any layout as a `(height, width, channels)` array
    /// over the same samples. Never fails.
    pub fn into_color_view(self) -> (r: ColorView<'a>)
        requires
            self.0.wf(),
        ensures
            color_shape(r) == grid_shape(self.0.width, self.0.height, self.0.format),
            strides3_int(color_strides(r)) == row_major_strides3(color_shape(r)),
            color_samples(r) == self.0.samples@,
    {
        let NdImage(b) = self;
        let shape = (b.height as usize, b.width as usize, b.format.channels());
        color_from_samples(shape, b.samples)
    }
}

impl<'a> NdImage<PixelBufferMut<'a>> {
    /// Views a single-channel buffer as a writable `(height, width)` array
    /// over the same samples. Never fails. The caller's exclusive borrow of
    /// the samples passes to the view.
    pub fn into_gray_view_mut(self) -> (r: GrayViewMut<'a>)
        requires
            self.0.wf(),
            self.0.format == Colors::Luma,
        ensures
            gray_mut_shape(r) == grid_shape2(self.0.width, self.0.height),
            strides2_int(gray_mut_strides(r)) == row_major_strides2(gray_mut_shape(r)),
            gray_mut_samples(r) == old(self.0.samples)@,
    {
        let NdImage(b) = self;
        let shape = (b.height as usize, b.width as usize);
        proof {
            lemma_fits_single_channel(grid_shape(b.width, b.height, b.format));
        }
        gray_from_samples_mut(shape, b.samples)
    }

    /// Views a buffer of any layout as a writable `(height, width, channels)`
    /// array over the same samples. Never fails. The caller's exclusive borrow
    /// of the samples passes to the view.
    pub fn into_color_view_mut(self) -> (r: ColorViewMut<'a>)
        requires
            self.0.wf(),
        ensures
            color_mut_shape(r) == grid_shape(self.0.width, self.0.height, self.0.format),
            strides3_int(color_mut_strides(r)) == row_major_strides3(color_mut_shape(r)),
            color_mut_samples(r) == old(self.0.samples)@,
    {
        let NdImage(b) = self;
        let shape = (b.height as usize, b.width as usize, b.format.channels());
        color_from_samples_mut(shape, b.samples)
    }
}

impl<'a> NdImage<GrayView<'a>> {
    /// Reinterprets a `(rows, cols)` view as a `Luma` pixel buffer of `cols`
    /// x `rows` over the same samples. Gives `None`, rather than copying,
    /// when the view's elements are not one row-major run (a step-sampled,
    /// reversed or transposed view), or when the grid does not fit a pixel
    /// buffer's `u32` dimensions.
    pub fn into_luma(self) -> (r: Option<PixelBuffer<'a>>)
        ensures
            r is Some ==> r->0.wf(),
            r matches Some(b) ==> buffer_from_gray(
                gray_shape(self.0),
                strides2_int(gray_strides(self.0)),
                gray_samples(self.0),
            ) == Some(buffer_model(b)),
            r is None ==> buffer_from_gray(
                gray_shape(self.0),
                strides2_int(gray_strides(self.0)),
                gray_samples(self.0),
            ) is None,
    {
        let NdImage(v) = self;
        let shape = gray_dim(&v);
        if shape.0 > u32::MAX as usize || shape.1 > u32::MAX as usize {
            return None;
        }
        if !shape_fits2(shape) {
            return None;
        }
        proof {
            lemma_fits_single_channel((shape.0, shape.1, 1));
        }
        match gray_to_slice(&v) {
            None => None,
            Some(samples) => Some(
                PixelBuffer {
                    width: shape.1 as u32,
                    height: shape.0 as u32,
                    format: Colors::Luma,
                    samples,
                },
            ),
        }
    }
}

impl<'a> NdImage<ColorView<'a>> {
    /// Reinterprets a `(rows, cols, channels)` view as a pixel buffer of
    /// `cols` x `rows` tagged `format`, over the same samples. Gives `None`
    /// when the channel axis does not have exactly `format`'s channel count
    /// (the request decides between layouts of equal count, such as `Rgb` and
    /// `Bgr`), when the view's elements are not one row-major run, or when the
    /// grid does not fit a pixel buffer's `u32` dimensions.
    pub fn into_buffer(self, format: Colors) -> (r: Option<PixelBuffer<'a>>)
        ensures
            r is Some ==> r->0.wf(),
            r matches Some(b) ==> buffer_from_color(
                color_shape(self.0),
                strides3_int(color_strides(self.0)),
                color_samples(self.0),
                format,
            ) == Some(buffer_model(b)),
            r is None ==> buffer_from_color(
                color_shape(self.0),
                strides3_int(color_strides(self.0)),
                color_samples(self.0),
                format,
            ) is None,
    {
        let NdImage(v) = self;
        let shape = color_dim(&v);
        if shape.2 != format.channels() {
            return None;
        }
        if shape.0 > u32::MAX as usize || shape.1 > u32::MAX as usize {
            return None;
        }
        if !shape_fits3(shape) {
            return None;
        }
        match color_to_slice(&v) {
            None => None,
            Some(samples) => Some(
                PixelBuffer { width: shape.1 as u32, height: shape.0 as u32, format, samples },
            ),
        }
    }
}

/// A well-formed `Luma` buffer, reinterpreted as a 2D view and that view
/// reinterpreted back, is the same buffer: same width, height, layout and
/// samples.
pub proof fn lemma_gray_round_trip(b: PixelBuffer, v: GrayView)
    requires
        b.wf(),
        b.format == Colors::Luma,
        gray_shape(v) == grid_shape2(b.width, b.height),
        strides2_int(gray_strides(v)) == row_major_strides2(gray_shape(v)),
        gray_samples(v) == b.samples@,
    ensures
        buffer_from_gray(gray_shape(v), strides2_int(gray_strides(v)), gray_samples(v)) == Some(
            buffer_model(b),
        ),
{
    lemma_fits_single_channel(grid_shape(b.width, b.height, b.format));
}

/// A well-formed buffer of any layout, reinterpreted as a 3D view and that
/// view reinterpreted back with the buffer's own layout requested, is the
/// same buffer: same width, height, layout and samples.
pub proof fn lemma_color_round_trip(b: PixelBuffer, v: ColorView)
    requires
        b.wf(),
        color_shape(v) == grid_shape(b.width, b.height, b.format),
        strides3_int(color_strides(v)) == row_major_strides3(color_shape(v)),
        color_samples(v) == b.samples@,
    ensures
        buffer_from_color(
            color_shape(v),
            strides3_int(color_strides(v)),
            color_samples(v),
            b.format,
        ) == Some(buffer_model(b)),
{
}

/// A 3D view whose elements are not one row-major run (a step-sampled,
/// reversed or transposed view) is never reinterpreted as a pixel buffer,
/// whatever layout is requested.
pub proof fn lemma_discontiguous_rejected(v: ColorView, format: Colors)
    requires
        !is_standard3(color_shape(v), strides3_int(color_strides(v))),
    ensures
        buffer_from_color(color_shape(v), strides3_int(color_strides(v)), color_samples(v), format)
            is None,
{
}

/// Of a contiguous 3-channel view, a `Bgr` request gives a buffer tagged
/// `Bgr` over the very same samples (and an `Rgb` request one tagged `Rgb`),
/// while a request for a layout of another channel count, such as `Rgba`,
/// gives nothing.
pub proof fn lemma_requested_layout_decides(v: ColorView, format: Colors)
    requires
        color_shape(v).2 == 3,
        is_standard3(color_shape(v), strides3_int(color_strides(v))),
        color_shape(v).0 <= u32::MAX,
        color_shape(v).1 <= u32::MAX,
        fits3(color_shape(v)),
    ensures
        buffer_from_color(
            color_shape(v),
            strides3_int(color_strides(v)),
            color_samples(v),
            Colors::Bgr,
        ) == Some((color_shape(v).1 as u32, color_shape(v).0 as u32, Colors::Bgr, color_samples(v))),
        buffer_from_color(
            color_shape(v),
            strides3_int(color_strides(v)),
            color_samples(v),
            Colors::Rgb,
        ) == Some((color_shape(v).1 as u32, color_shape(v).0 as u32, Colors::Rgb, color_samples(v))),
        buffer_from_color(
            color_shape(v),
            strides3_int(color_strides(v)),
            color_samples(v),
            Colors::Rgba,
        ) is None,
        buffer_from_color(
            color_shape(v),
            strides3_int(color_strides(v)),
            color_samples(v),
            format,
        ) is Some <==> format.spec_channels() == 3,
{
}

} // verus!
