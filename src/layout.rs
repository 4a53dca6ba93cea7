use vstd::prelude::*;

verus! {

/// An axis length as it counts towards the element-count limit of an
/// array: empty axes do not count.
pub open spec fn nonzero(n: int) -> int {
    if n == 0 {
        1
    } else {
        n
    }
}

/// The product of the non-empty axis lengths stays within `isize::MAX`,
/// the size limit that every array view observes.
pub open spec fn fits2(shape: (usize, usize)) -> bool {
    nonzero(shape.0 as int) * nonzero(shape.1 as int) <= isize::MAX
}

/// The product of the non-empty axis lengths stays within `isize::MAX`,
/// the size limit that every array view observes.
pub open spec fn fits3(shape: (usize, usize, usize)) -> bool {
    nonzero(shape.0 as int) * nonzero(shape.1 as int) * nonzero(shape.2 as int) <= isize::MAX
}

/// Row-major strides of a packed `(rows, cols)` grid; an empty grid has all
/// strides zero.
pub open spec fn row_major_strides2(shape: (usize, usize)) -> (int, int) {
    if shape.0 == 0 || shape.1 == 0 {
        (0, 0)
    } else {
        (shape.1 as int, 1)
    }
}

/// Row-major strides of a packed `(rows, cols, channels)` grid; an empty grid
/// has all strides zero, since an array view over an empty slice takes no
/// other strides.
pub open spec fn row_major_strides3(shape: (usize, usize, usize)) -> (int, int, int) {
    if shape.0 == 0 || shape.1 == 0 || shape.2 == 0 {
        (0, 0, 0)
    } else {
        (shape.1 * shape.2, shape.2 as int, 1)
    }
}

/// The elements of a `(rows, cols)` view with these strides form one
/// unbroken run in row-major order. An empty view always does; an axis of
/// length one may have any stride, since it is never stepped along.
pub open spec fn is_standard2(shape: (usize, usize), strides: (int, int)) -> bool {
    shape.0 == 0 || shape.1 == 0 || ((shape.1 != 1 ==> strides.1 == 1) && (shape.0 != 1
        ==> strides.0 == shape.1 as int))
}

/// The elements of a `(rows, cols, channels)` view with these strides form
/// one unbroken run in row-major order. An empty view always does; an axis of
/// length one may have any stride, since it is never stepped along.
pub open spec fn is_standard3(shape: (usize, usize, usize), strides: (int, int, int)) -> bool {
    shape.0 == 0 || shape.1 == 0 || shape.2 == 0 || ((shape.2 != 1 ==> strides.2 == 1) && (
    shape.1 != 1 ==> strides.1 == shape.2 as int) && (shape.0 != 1 ==> strides.0 == shape.1
        * shape.2))
}

/// Strides written as integers.
pub open spec fn strides2_int(strides: (isize, isize)) -> (int, int) {
    (strides.0 as int, strides.1 as int)
}

/// Strides written as integers.
pub open spec fn strides3_int(strides: (isize, isize, isize)) -> (int, int, int) {
    (strides.0 as int, strides.1 as int, strides.2 as int)
}

/// A single-channel grid fits as a 3D shape exactly when it fits as a 2D
/// shape.
pub proof fn lemma_fits_single_channel(shape: (usize, usize, usize))
    requires
        shape.2 == 1,
    ensures
        fits3(shape) == fits2((shape.0, shape.1)),
{
    let p = nonzero(shape.0 as int) * nonzero(shape.1 as int);
    assert(p * nonzero(shape.2 as int) == p);
}

/// Decides `fits3` without overflowing.
pub fn shape_fits3(shape: (usize, usize, usize)) -> (r: bool)
    ensures
        r == fits3(shape),
{
    let a: usize = if shape.0 == 0 { 1 } else { shape.0 };
    let b: usize = if shape.1 == 0 { 1 } else { shape.1 };
    let c: usize = if shape.2 == 0 { 1 } else { shape.2 };
    let limit: usize = isize::MAX as usize;
    match a.checked_mul(b) {
        None => {
            proof {
                assert(a * b > usize::MAX);
                assert(a * b * c >= a * b) by (nonlinear_arith)
                    requires
                        c >= 1,
                        a * b >= 0,
                ;
            }
            false
        },
        Some(ab) => {
            match ab.checked_mul(c) {
                None => false,
                Some(abc) => abc <= limit,
            }
        },
    }
}

/// Decides `fits2` without overflowing.
pub fn shape_fits2(shape: (usize, usize)) -> (r: bool)
    ensures
        r == fits2(shape),
{
    let a: usize = if shape.0 == 0 { 1 } else { shape.0 };
    let b: usize = if shape.1 == 0 { 1 } else { shape.1 };
    match a.checked_mul(b) {
        None => false,
        Some(ab) => ab <= isize::MAX as usize,
    }
}

} // verus!
