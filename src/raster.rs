use vstd::prelude::*;

verus! {

/// Where the sample whose raster coordinates have floors `(x, y)` lands in a
/// row-major pixel array of `width × height`: at `x + y·width` when
/// `0 ≤ x < width` and `0 ≤ y < height`; elsewhere it is dropped.
pub fn sample_index(width: usize, height: usize, x: i64, y: i64) -> (r: Option<usize>)
    requires
        width * height <= usize::MAX,
    ensures
        r == (if 0 <= x < width && 0 <= y < height {
            Some((x + y * width) as usize)
        } else {
            None::<usize>
        }),
{
    if x < 0 || y < 0 {
        return None;
    }
    let xu = x as u64;
    let yu = y as u64;
    if xu >= width as u64 || yu >= height as u64 {
        return None;
    }
    let xs = xu as usize;
    let ys = yu as usize;
    assert(xs + ys * width < width * height) by (nonlinear_arith)
        requires
            xs < width,
            ys < height,
    ;
    Some(xs + ys * width)
}

/// The raster coordinates `(x, y)` of pixel number `pix_id` when pixels are
/// numbered row by row, `width` to a row.
pub fn pixel_of(pix_id: u32, width: u32) -> (r: (u32, u32))
    requires
        width > 0,
    ensures
        r.0 == pix_id % width,
        r.1 == pix_id / width,
        r.0 < width,
        r.0 + r.1 * width == pix_id,
{
    let x = pix_id % width;
    let y = pix_id / width;
    assert(x + y * width == pix_id) by (nonlinear_arith)
        requires
            x == pix_id % width,
            y == pix_id / width,
            width > 0,
    ;
    (x, y)
}

} // verus!
