use vstd::prelude::*;

verus! {

/// The closed set of channel layouts a pixel buffer can carry.
///
/// `Rgb` and `Bgr` (and `Rgba` and `Bgra`) share a channel count; which of
/// the two a buffer is tagged with is always the caller's choice, never
/// inferred from the samples.
#[derive(Clone, Copy, Debug, PartialEq, Eq, Structural)]
pub enum Colors {
    Luma,
    LumaA,
    Rgb,
    Rgba,
    Bgr,
    Bgra,
}

impl Colors {
    /// Number of samples that make up one pixel of this layout.
    pub open spec fn spec_channels(self) -> nat {
        match self {
            Colors::Luma => 1,
            Colors::LumaA => 2,
            Colors::Rgb => 3,
            Colors::Rgba => 4,
            Colors::Bgr => 3,
            Colors::Bgra => 4,
        }
    }

    /// Number of samples that make up one pixel of this layout.
    pub fn channels(&self) -> (r: usize)
        ensures
            r as nat == self.spec_channels(),
            1 <= r <= 4,
    {
        match self {
            Colors::Luma => 1,
            Colors::LumaA => 2,
            Colors::Rgb => 3,
            Colors::Rgba => 4,
            Colors::Bgr => 3,
            Colors::Bgra => 4,
        }
    }
}

} // verus!
