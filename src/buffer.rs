use vstd::prelude::*;
use crate::colors::Colors;
use crate::layout::fits3;
use crate::pixel::{grid_shape, packed_len, PixelBuffer};

verus! {

/// An `image` crate buffer of `Luma` pixels over borrowed samples.
#[verifier::external_body]
pub struct LumaImage<'a> {
    pub image: image::ImageBuffer<image::Luma<u8>, &'a [u8]>,
}

/// An `image` crate buffer of `LumaA` pixels over borrowed samples.
#[verifier::external_body]
pub struct LumaAlphaImage<'a> {
    pub image: image::ImageBuffer<image::LumaA<u8>, &'a [u8]>,
}

/// An `image` crate buffer of `Rgb` pixels over borrowed samples.
#[verifier::external_body]
pub struct RgbImage<'a> {
    pub image: image::ImageBuffer<image::Rgb<u8>, &'a [u8]>,
}

/// An `image` crate buffer of `Rgba` pixels over borrowed samples.
#[verifier::external_body]
pub struct RgbaImage<'a> {
    pub image: image::ImageBuffer<image::Rgba<u8>, &'a [u8]>,
}

/// An `image` crate buffer of `Bgr` pixels over borrowed samples.
#[verifier::external_body]
pub struct BgrImage<'a> {
    pub image: image::ImageBuffer<image::Bgr<u8>, &'a [u8]>,
}

/// An `image` crate buffer of `Bgra` pixels over borrowed samples.
#[verifier::external_body]
pub struct BgraImage<'a> {
    pub image: image::ImageBuffer<image::Bgra<u8>, &'a [u8]>,
}

/// An `image` crate buffer over borrowed samples, in one of the six channel
/// layouts.
pub enum ImageRef<'a> {
    Luma(LumaImage<'a>),
    LumaA(LumaAlphaImage<'a>),
    Rgb(RgbImage<'a>),
    Rgba(RgbaImage<'a>),
    Bgr(BgrImage<'a>),
    Bgra(BgraImage<'a>),
}

/// The width, the height and the raw samples of a `Luma` image buffer.
pub uninterp spec fn luma_parts(i: LumaImage) -> (u32, u32, Seq<u8>);

/// The width, the height and the raw samples of a `LumaA` image buffer.
pub uninterp spec fn luma_alpha_parts(i: LumaAlphaImage) -> (u32, u32, Seq<u8>);

/// The width, the height and the raw samples of a `Rgb` image buffer.
pub uninterp spec fn rgb_parts(i: RgbImage) -> (u32, u32, Seq<u8>);

/// The width, the height and the raw samples of a `Rgba` image buffer.
pub uninterp spec fn rgba_parts(i: RgbaImage) -> (u32, u32, Seq<u8>);

/// The width, the height and the raw samples of a `Bgr` image buffer.
pub uninterp spec fn bgr_parts(i: BgrImage) -> (u32, u32, Seq<u8>);

/// The width, the height and the raw samples of a `Bgra` image buffer.
pub uninterp spec fn bgra_parts(i: BgraImage) -> (u32, u32, Seq<u8>);

/// The width, the height, the channel layout and the raw samples of an image
/// buffer.
pub open spec fn image_model(i: ImageRef) -> (u32, u32, Colors, Seq<u8>) {
    match i {
        ImageRef::Luma(b) => (luma_parts(b).0, luma_parts(b).1, Colors::Luma, luma_parts(b).2),
        ImageRef::LumaA(b) => (luma_alpha_parts(b).0, luma_alpha_parts(b).1, Colors::LumaA, luma_alpha_parts(b).2),
        ImageRef::Rgb(b) => (rgb_parts(b).0, rgb_parts(b).1, Colors::Rgb, rgb_parts(b).2),
        ImageRef::Rgba(b) => (rgba_parts(b).0, rgba_parts(b).1, Colors::Rgba, rgba_parts(b).2),
        ImageRef::Bgr(b) => (bgr_parts(b).0, bgr_parts(b).1, Colors::Bgr, bgr_parts(b).2),
        ImageRef::Bgra(b) => (bgra_parts(b).0, bgra_parts(b).1, Colors::Bgra, bgra_parts(b).2),
    }
}

/// Relies on `ImageBuffer::from_raw` for `Luma` pixels: it keeps the width,
/// height and container it is given. On a grid whose size fits `isize`,
/// none of its checked size products overflows, so it accepts them exactly
/// when the container holds at least `width * height` samples.
#[verifier::external_body]
fn luma_from_raw<'a>(width: u32, height: u32, samples: &'a [u8]) -> (r: Option<LumaImage<'a>>)
    requires
        fits3(grid_shape(width, height, Colors::Luma)),
    ensures
        r is Some <==> packed_len(width, height, Colors::Luma) <= samples@.len(),
        r is Some ==> luma_parts(r->0) == (width, height, samples@),
{
    image::ImageBuffer::from_raw(width, height, samples).map(|image| LumaImage { image })
}

/// Relies on `ImageBuffer::from_raw` for `LumaA` pixels: it keeps the width,
/// height and container it is given. On a grid whose size fits `isize`,
/// none of its checked size products overflows, so it accepts them exactly
/// when the container holds at least `width * height * 2` samples.
#[verifier::external_body]
fn luma_alpha_from_raw<'a>(width: u32, height: u32, samples: &'a [u8]) -> (r: Option<LumaAlphaImage<'a>>)
    requires
        fits3(grid_shape(width, height, Colors::LumaA)),
    ensures
        r is Some <==> packed_len(width, height, Colors::LumaA) <= samples@.len(),
        r is Some ==> luma_alpha_parts(r->0) == (width, height, samples@),
{
    image::ImageBuffer::from_raw(width, height, samples).map(|image| LumaAlphaImage { image })
}

/// Relies on `ImageBuffer::from_raw` for `Rgb` pixels: it keeps the width,
/// height and container it is given. On a grid whose size fits `isize`,
/// none of its checked size products overflows, so it accepts them exactly
/// when the container holds at least `width * height * 3` samples.
#[verifier::external_body]
fn rgb_from_raw<'a>(width: u32, height: u32, samples: &'a [u8]) -> (r: Option<RgbImage<'a>>)
    requires
        fits3(grid_shape(width, height, Colors::Rgb)),
    ensures
        r is Some <==> packed_len(width, height, Colors::Rgb) <= samples@.len(),
        r is Some ==> rgb_parts(r->0) == (width, height, samples@),
{
    image::ImageBuffer::from_raw(width, height, samples).map(|image| RgbImage { image })
}

/// Relies on `ImageBuffer::from_raw` for `Rgba` pixels: it keeps the width,
/// height and container it is given. On a grid whose size fits `isize`,
/// none of its checked size products overflows, so it accepts them exactly
/// when the container holds at least `width * height * 4` samples.
#[verifier::external_body]
fn rgba_from_raw<'a>(width: u32, height: u32, samples: &'a [u8]) -> (r: Option<RgbaImage<'a>>)
    requires
        fits3(grid_shape(width, height, Colors::Rgba)),
    ensures
        r is Some <==> packed_len(width, height, Colors::Rgba) <= samples@.len(),
        r is Some ==> rgba_parts(r->0) == (width, height, samples@),
{
    image::ImageBuffer::from_raw(width, height, samples).map(|image| RgbaImage { image })
}

/// Relies on `ImageBuffer::from_raw` for `Bgr` pixels: it keeps the width,
/// height and container it is given. On a grid whose size fits `isize`,
/// none of its checked size products overflows, so it accepts them exactly
/// when the container holds at least `width * height * 3` samples.
#[verifier::external_body]
fn bgr_from_raw<'a>(width: u32, height: u32, samples: &'a [u8]) -> (r: Option<BgrImage<'a>>)
    requires
        fits3(grid_shape(width, height, Colors::Bgr)),
    ensures
        r is Some <==> packed_len(width, height, Colors::Bgr) <= samples@.len(),
        r is Some ==> bgr_parts(r->0) == (width, height, samples@),
{
    image::ImageBuffer::from_raw(width, height, samples).map(|image| BgrImage { image })
}

/// Relies on `ImageBuffer::from_raw` for `Bgra` pixels: it keeps the width,
/// height and container it is given. On a grid whose size fits `isize`,
/// none of its checked size products overflows, so it accepts them exactly
/// when the container holds at least `width * height * 4` samples.
#[verifier::external_body]
fn bgra_from_raw<'a>(width: u32, height: u32, samples: &'a [u8]) -> (r: Option<BgraImage<'a>>)
    requires
        fits3(grid_shape(width, height, Colors::Bgra)),
    ensures
        r is Some <==> packed_len(width, height, Colors::Bgra) <= samples@.len(),
        r is Some ==> bgra_parts(r->0) == (width, height, samples@),
{
    image::ImageBuffer::from_raw(width, height, samples).map(|image| BgraImage { image })
}

impl<'a> PixelBuffer<'a> {
    /// The same samples as an `image` crate buffer of the same width, height
    /// and channel layout. Never fails: a well-formed buffer always holds
    /// exactly the samples its grid needs.
    pub fn into_image(self) -> (r: ImageRef<'a>)
        requires
            self.wf(),
        ensures
            image_model(r) == (self.width, self.height, self.format, self.samples@),
    {
        let (w, h, s) = (self.width, self.height, self.samples);
        match self.format {
            Colors::Luma => ImageRef::Luma(luma_from_raw(w, h, s).unwrap()),
            Colors::LumaA => ImageRef::LumaA(luma_alpha_from_raw(w, h, s).unwrap()),
            Colors::Rgb => ImageRef::Rgb(rgb_from_raw(w, h, s).unwrap()),
            Colors::Rgba => ImageRef::Rgba(rgba_from_raw(w, h, s).unwrap()),
            Colors::Bgr => ImageRef::Bgr(bgr_from_raw(w, h, s).unwrap()),
            Colors::Bgra => ImageRef::Bgra(bgra_from_raw(w, h, s).unwrap()),
        }
    }
}

} // verus!
