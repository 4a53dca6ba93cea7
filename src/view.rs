use vstd::prelude::*;
use crate::layout::{fits2, fits3, is_standard2, is_standard3, row_major_strides2, row_major_strides3, strides2_int, strides3_int};

verus! {

/// A read-only `(rows, cols)` array view over borrowed samples.
#[verifier::external_body]
pub struct GrayView<'a> {
    pub array: ndarray::ArrayView<'a, u8, ndarray::Ix2>,
}

/// A read-only `(rows, cols, channels)` array view over borrowed samples.
#[verifier::external_body]
pub struct ColorView<'a> {
    pub array: ndarray::ArrayView<'a, u8, ndarray::Ix3>,
}

/// A writable `(rows, cols)` array view over exclusively borrowed samples.
#[verifier::external_body]
pub struct GrayViewMut<'a> {
    pub array: ndarray::ArrayViewMut<'a, u8, ndarray::Ix2>,
}

/// A writable `(rows, cols, channels)` array view over exclusively borrowed
/// samples.
#[verifier::external_body]
pub struct ColorViewMut<'a> {
    pub array: ndarray::ArrayViewMut<'a, u8, ndarray::Ix3>,
}

/// The axis lengths of a 2D view.
pub uninterp spec fn gray_shape(v: GrayView) -> (usize, usize);

/// The per-axis element strides of a 2D view.
pub uninterp spec fn gray_strides(v: GrayView) -> (isize, isize);

/// The elements of a 2D view in logical row-major order.
pub uninterp spec fn gray_samples(v: GrayView) -> Seq<u8>;

/// The axis lengths of a 3D view.
pub uninterp spec fn color_shape(v: ColorView) -> (usize, usize, usize);

/// The per-axis element strides of a 3D view.
pub uninterp spec fn color_strides(v: ColorView) -> (isize, isize, isize);

/// The elements of a 3D view in logical row-major order.
pub uninterp spec fn color_samples(v: ColorView) -> Seq<u8>;

/// The axis lengths of a writable 2D view.
pub uninterp spec fn gray_mut_shape(v: GrayViewMut) -> (usize, usize);

/// The per-axis element strides of a writable 2D view.
pub uninterp spec fn gray_mut_strides(v: GrayViewMut) -> (isize, isize);

/// The elements of a writable 2D view in logical row-major order, as they
/// stand when the view is made.
pub uninterp spec fn gray_mut_samples(v: GrayViewMut) -> Seq<u8>;

/// The axis lengths of a writable 3D view.
pub uninterp spec fn color_mut_shape(v: ColorViewMut) -> (usize, usize, usize);

/// The per-axis element strides of a writable 3D view.
pub uninterp spec fn color_mut_strides(v: ColorViewMut) -> (isize, isize, isize);

/// The elements of a writable 3D view in logical row-major order, as they
/// stand when the view is made.
pub uninterp spec fn color_mut_samples(v: ColorViewMut) -> Seq<u8>;

/// Relies on `ArrayView::from_shape` with a plain (row-major) shape: it
/// accepts a slice at least as long as the shape's size, provided the
/// product of the non-empty axes fits in `isize`, and its strides are then
/// the default row-major ones (all zero for an empty shape).
#[verifier::external_body]
pub(crate) fn gray_from_samples<'a>(shape: (usize, usize), samples: &'a [u8]) -> (r: GrayView<'a>)
    requires
        samples@.len() == shape.0 * shape.1,
        fits2(shape),
    ensures
        gray_shape(r) == shape,
        strides2_int(gray_strides(r)) == row_major_strides2(shape),
        gray_samples(r) == samples@,
{
    GrayView { array: ndarray::ArrayView::from_shape(shape, samples).unwrap() }
}

/// Relies on `ArrayView::from_shape` with a plain (row-major) shape, as for
/// the 2D case.
#[verifier::external_body]
pub(crate) fn color_from_samples<'a>(shape: (usize, usize, usize), samples: &'a [u8]) -> (r:
    ColorView<'a>)
    requires
        samples@.len() == shape.0 * shape.1 * shape.2,
        fits3(shape),
    ensures
        color_shape(r) == shape,
        strides3_int(color_strides(r)) == row_major_strides3(shape),
        color_samples(r) == samples@,
{
    ColorView { array: ndarray::ArrayView::from_shape(shape, samples).unwrap() }
}

/// Relies on `ArrayViewMut::from_shape` with a plain (row-major) shape, as
/// for the read-only view.
#[verifier::external_body]
pub(crate) fn gray_from_samples_mut<'a>(shape: (usize, usize), samples: &'a mut [u8]) -> (r:
    GrayViewMut<'a>)
    requires
        old(samples)@.len() == shape.0 * shape.1,
        fits2(shape),
    ensures
        gray_mut_shape(r) == shape,
        strides2_int(gray_mut_strides(r)) == row_major_strides2(shape),
        gray_mut_samples(r) == old(samples)@,
{
    GrayViewMut { array: ndarray::ArrayViewMut::from_shape(shape, samples).unwrap() }
}

/// Relies on `ArrayViewMut::from_shape` with a plain (row-major) shape, as
/// for the read-only view.
#[verifier::external_body]
pub(crate) fn color_from_samples_mut<'a>(shape: (usize, usize, usize), samples: &'a mut [u8]) -> (r:
    ColorViewMut<'a>)
    requires
        old(samples)@.len() == shape.0 * shape.1 * shape.2,
        fits3(shape),
    ensures
        color_mut_shape(r) == shape,
        strides3_int(color_mut_strides(r)) == row_major_strides3(shape),
        color_mut_samples(r) == old(samples)@,
{
    ColorViewMut { array: ndarray::ArrayViewMut::from_shape(shape, samples).unwrap() }
}

/// Relies on `ArrayBase::dim`: the axis lengths of a 2D view.
#[verifier::external_body]
pub(crate) fn gray_dim(v: &GrayView) -> (r: (usize, usize))
    ensures
        r == gray_shape(*v),
{
    v.array.dim()
}

/// Relies on `ArrayBase::dim`: the axis lengths of a 3D view.
#[verifier::external_body]
pub(crate) fn color_dim(v: &ColorView) -> (r: (usize, usize, usize))
    ensures
        r == color_shape(*v),
{
    v.array.dim()
}

/// Relies on `ArrayView::to_slice`: the view's elements as one slice of the
/// view's full length, present exactly when the view is in standard
/// (row-major, contiguous) layout.
#[verifier::external_body]
pub(crate) fn gray_to_slice<'a>(v: &GrayView<'a>) -> (r: Option<&'a [u8]>)
    ensures
        r is Some <==> is_standard2(gray_shape(*v), strides2_int(gray_strides(*v))),
        r is Some ==> r->0@ == gray_samples(*v),
        r is Some ==> r->0@.len() == gray_shape(*v).0 * gray_shape(*v).1,
{
    v.array.to_slice()
}

/// Relies on `ArrayView::to_slice`: the view's elements as one slice of the
/// view's full length, present exactly when the view is in standard
/// (row-major, contiguous) layout.
#[verifier::external_body]
pub(crate) fn color_to_slice<'a>(v: &ColorView<'a>) -> (r: Option<&'a [u8]>)
    ensures
        r is Some <==> is_standard3(color_shape(*v), strides3_int(color_strides(*v))),
        r is Some ==> r->0@ == color_samples(*v),
        r is Some ==> r->0@.len() == color_shape(*v).0 * color_shape(*v).1 * color_shape(*v).2,
{
    v.array.to_slice()
}

} // verus!
