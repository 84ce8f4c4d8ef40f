use vstd::prelude::*;

verus! {

/// `i` moved into `[0, n)`: below the range it becomes `0`, above it `n - 1`.
pub open spec fn clamp_index(i: int, n: int) -> int {
    if i < 0 {
        0
    } else if i >= n {
        n - 1
    } else {
        i
    }
}

/// Index into a row-major, top-row-first texture of `size` of the texel at
/// `pixel = (column, row counted from the bottom)`, each axis clamped to the
/// texture first.
pub open spec fn texel_index_of(pixel: (i64, i64), size: (u32, u32)) -> int {
    clamp_index(pixel.0 as int, size.0 as int) + (size.1 - 1 - clamp_index(
        pixel.1 as int,
        size.1 as int,
    )) * size.0
}

/// `i` clamped to `[0, n)`.
fn clamp_to(i: i64, n: u32) -> (r: u32)
    requires
        n > 0,
    ensures
        r == clamp_index(i as int, n as int),
{
    if i < 0 {
        0
    } else if i >= n as i64 {
        n - 1
    } else {
        i as u32
    }
}

/// Storage index of a texel of an environment texture. `pixel` is the column
/// and the row counted from the bottom, as computed from a direction's
/// longitude and latitude; either may lie outside the texture and is clamped
/// to its edge, so the index always lies inside the texture.
pub fn uv_to_pixel_index(pixel: (i64, i64), size: (u32, u32)) -> (r: usize)
    requires
        size.0 > 0,
        size.1 > 0,
        size.0 * size.1 <= usize::MAX,
    ensures
        r == texel_index_of(pixel, size),
        r < size.0 * size.1,
{
    let x = clamp_to(pixel.0, size.0);
    let y = clamp_to(pixel.1, size.1);
    let row = size.1 - 1 - y;
    proof {
        let w = size.0 as int;
        let h = size.1 as int;
        assert(row * w + w <= h * w) by (nonlinear_arith)
            requires
                0 <= row <= h - 1,
                0 <= w,
        ;
        assert(h * w == w * h) by (nonlinear_arith);
        assert(0 <= row * w) by (nonlinear_arith)
            requires
                0 <= row,
                0 <= w,
        ;
    }
    x as usize + row as usize * size.0 as usize
}

/// The texel of `texture` (row-major, top row first, `size` texels) that
/// `pixel` falls on after clamping.
pub fn texel_at<T: Copy>(texture: &Vec<T>, size: (u32, u32), pixel: (i64, i64)) -> (r: T)
    requires
        size.0 > 0,
        size.1 > 0,
        texture@.len() == size.0 * size.1,
    ensures
        r == texture@[texel_index_of(pixel, size)],
{
    let n = texture.len();
    assert(size.0 * size.1 == n);
    let idx = uv_to_pixel_index(pixel, size);
    texture[idx]
}

} // verus!
