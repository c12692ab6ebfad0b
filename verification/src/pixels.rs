//! The length contract of pixel buffers.
//!
//! Native code reads or writes `width * height * bytes_per_pixel` bytes of a
//! buffer that it is given. A buffer that is shorter never reaches it.

use vstd::prelude::*;

verus! {

/// The number of bytes that an image takes.
pub open spec fn image_len(width: int, height: int, bytes_per_pixel: int) -> int {
    width * height * bytes_per_pixel
}

/// The number of bytes that an image takes, where a buffer of `len` bytes
/// holds it.
pub open spec fn image_in(len: int, width: int, height: int, bytes_per_pixel: int) -> Option<
    usize,
> {
    if image_len(width, height, bytes_per_pixel) <= len {
        Some(image_len(width, height, bytes_per_pixel) as usize)
    } else {
        None
    }
}

/// The number of bytes that an image takes, where a buffer of `len` bytes
/// holds it. The product is taken in full: an image too large to count is
/// held by no buffer.
pub fn fits_image(len: usize, width: usize, height: usize, bytes_per_pixel: usize) -> (n: Option<
    usize,
>)
    ensures
        n == image_in(len as int, width as int, height as int, bytes_per_pixel as int),
        n matches Some(k) ==> k == image_len(width as int, height as int, bytes_per_pixel as int)
            && k <= len,
{
    if bytes_per_pixel == 0 {
        assert(image_len(width as int, height as int, 0) == 0) by (nonlinear_arith);
        return Some(0);
    }
    match width.checked_mul(height) {
        Some(area) => match area.checked_mul(bytes_per_pixel) {
            Some(bytes) => {
                if bytes <= len {
                    Some(bytes)
                } else {
                    None
                }
            },
            None => None,
        },
        None => {
            assert(width * height * bytes_per_pixel >= width * height) by (nonlinear_arith)
                requires
                    bytes_per_pixel >= 1,
                    width >= 0,
                    height >= 0,
            ;
            None
        },
    }
}

} // verus!
