//! Integer addressing into decoded image data.
//!
//! A decoded image is a row-major byte buffer of RGB triplets. Looking a
//! texel up means clamping the requested coordinates into the image and
//! computing the offset of its three bytes; both steps are pure integer
//! arithmetic and are verified here. Decoding the file itself is left to
//! the unverified edge of the renderer.

use vstd::prelude::*;

verus! {

/// What `clamp` returns: `x` held to the half-open range `[low, high)`,
/// mirroring the branch structure of the executable code so the result is
/// pinned down for every input, including a degenerate `low >= high`.
pub open spec fn clamp_spec(x: int, low: int, high: int) -> int {
    if x < low {
        low
    } else if x < high {
        x
    } else {
        high - 1
    }
}

/// Clamp `x` to the half-open range `[low, high)`.
pub fn clamp(x: i32, low: i32, high: i32) -> (r: i32)
    requires
        i32::MIN < high,
    ensures
        r == clamp_spec(x as int, low as int, high as int),
        low < high ==> low <= r < high,
{
    if x < low {
        return low;
    }
    if x < high {
        return x;
    }
    high - 1
}

/// The buffer offset of the texel at `(x, y)` after both coordinates are
/// clamped into the image: three bytes per texel, rows laid out
/// top-to-bottom.
pub open spec fn texel_offset(x: int, y: int, width: int, height: int) -> int {
    3 * (clamp_spec(y, 0, height) * width + clamp_spec(x, 0, width))
}

/// Reads the RGB bytes of the texel at `(x, y)` from a decoded image
/// buffer, clamping out-of-image coordinates to the nearest edge texel.
pub fn pixel_at(bdata: &Vec<u8>, image_width: i32, image_height: i32, x: i32, y: i32) -> (rgb: (
    u8,
    u8,
    u8,
))
    requires
        1 <= image_width,
        1 <= image_height,
        3 * image_width * (image_height + 1) <= i32::MAX,
        bdata.len() == 3 * image_width * image_height,
    ensures
        rgb.0 == bdata@[texel_offset(x as int, y as int, image_width as int, image_height as int)],
        rgb.1 == bdata@[texel_offset(x as int, y as int, image_width as int, image_height as int)
            + 1],
        rgb.2 == bdata@[texel_offset(x as int, y as int, image_width as int, image_height as int)
            + 2],
{
    let bytes_per_pixel: i32 = 3;
    let x = clamp(x, 0, image_width);
    let y = clamp(y, 0, image_height);
    proof {
        assert(image_width * 3 <= i32::MAX && 0 <= y * (image_width * 3) && 0 <= x * 3 && y
            * (image_width * 3) + x * 3 <= 3 * image_width * image_height - 3 && 3 * image_width
            * image_height <= i32::MAX && image_height * (image_width * 3) == 3 * image_width
            * image_height && y * (image_width * 3) + x * 3 == 3 * (y * image_width + x)
            && image_height * (image_width * 3) + image_width * 3 <= i32::MAX)
            by (nonlinear_arith)
            requires
                0 <= y < image_height,
                0 <= x < image_width,
                1 <= image_width,
                1 <= image_height,
                3 * image_width * (image_height + 1) <= i32::MAX,
        ;
    }
    let bytes_per_scanline = image_width * bytes_per_pixel;
    let offset = y * bytes_per_scanline + x * bytes_per_pixel;
    let offset_max = image_height * bytes_per_scanline + image_width * bytes_per_pixel;

    let offset = clamp(offset, 0, offset_max - 3) as usize;
    (bdata[offset], bdata[offset + 1], bdata[offset + 2])
}

} // verus!
