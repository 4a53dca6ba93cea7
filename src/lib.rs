//! Zero-copy reinterpretation between pixel buffers and dense array views.
//!
//! A [`PixelBuffer`] is a packed, row-major grid of pixels whose channel
//! layout is one of [`Colors`]. Wrapped in [`NdImage`], it becomes a
//! `(height, width)` or `(height, width, channels)` array view over the very
//! same samples, and never fails to. The other way, a view becomes a pixel
//! buffer only when its elements lie in one row-major run and its channel
//! axis matches the requested layout; otherwise the answer is `None`.
pub mod buffer;
pub mod colors;
pub mod convert;
pub mod layout;
pub mod pixel;
pub mod view;

pub use buffer::{
    BgrImage, BgraImage, ImageRef, LumaAlphaImage, LumaImage, RgbImage, RgbaImage,
};
pub use colors::Colors;
pub use convert::NdImage;
pub use pixel::{PixelBuffer, PixelBufferMut};
pub use view::{ColorView, ColorViewMut, GrayView, GrayViewMut};
