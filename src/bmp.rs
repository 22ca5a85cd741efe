use vstd::prelude::*;
use vstd::arithmetic::div_mod::lemma_fundamental_div_mod_converse;

verus! {

/// Bytes before the pixel data: the `BM` tag and a 52-byte header.
pub const BMP_HEADER_LEN: usize = 54;

/// `v` as four little-endian bytes.
pub open spec fn le32(v: u32) -> Seq<u8> {
    seq![
        (v % 256) as u8,
        ((v / 256) % 256) as u8,
        ((v / 65536) % 256) as u8,
        ((v / 16777216) % 256) as u8,
    ]
}

/// `v` as two little-endian bytes.
pub open spec fn le16(v: u16) -> Seq<u8> {
    seq![(v % 256) as u8, ((v / 256) % 256) as u8]
}

/// The header of a 24-bit uncompressed bitmap of `width` by `height` pixels.
/// Sizes and dimensions are stored modulo 2^32, as the format's 32-bit fields hold them.
pub open spec fn bmp_header(width: nat, height: nat) -> Seq<u8> {
    let data = 3 * width * height;
    seq![66u8, 77u8] + le32((BMP_HEADER_LEN + data) as u32) + le32(0) + le32(
        BMP_HEADER_LEN as u32,
    ) + le32(40) + le32(width as u32) + le32(height as u32) + le16(1) + le16(24) + le32(0)
        + le32(data as u32) + le32(2953) + le32(2953) + le32(0) + le32(0)
}

/// Byte `k` of the pixel data: pixels are written bottom row first, left to
/// right, each as blue, green, red.  `pixels` holds (red, green, blue) per
/// pixel, row by row from the top.
pub open spec fn bmp_data_byte(pixels: Seq<(u8, u8, u8)>, width: int, height: int, k: int) -> u8 {
    let p = k / 3;
    let row = p / width;
    let col = p % width;
    let px = pixels[col + (height - 1 - row) * width];
    if k % 3 == 0 {
        px.2
    } else if k % 3 == 1 {
        px.1
    } else {
        px.0
    }
}

/// The first `n` bytes of the pixel data.
pub open spec fn bmp_data(pixels: Seq<(u8, u8, u8)>, width: int, height: int, n: int) -> Seq<u8> {
    Seq::new(n as nat, |k: int| bmp_data_byte(pixels, width, height, k))
}

/// The whole bitmap file.
pub open spec fn bmp_file(pixels: Seq<(u8, u8, u8)>, width: nat, height: nat) -> Seq<u8> {
    bmp_header(width, height) + bmp_data(pixels, width as int, height as int, (3 * width * height) as int)
}

fn push_le32(out: &mut Vec<u8>, v: u32)
    ensures
        final(out)@ == old(out)@ + le32(v),
{
    out.push((v % 256) as u8);
    out.push(((v / 256) % 256) as u8);
    out.push(((v / 65536) % 256) as u8);
    out.push(((v / 16777216) % 256) as u8);
    assert(final(out)@ =~= old(out)@ + le32(v));
}

fn push_le16(out: &mut Vec<u8>, v: u16)
    ensures
        final(out)@ == old(out)@ + le16(v),
{
    out.push((v % 256) as u8);
    out.push(((v / 256) % 256) as u8);
    assert(final(out)@ =~= old(out)@ + le16(v));
}

proof fn lemma_sizes(width: int, height: int)
    requires
        width >= 0,
        height >= 0,
    ensures
        3 * (width * height) == 3 * width * height,
        width * height <= 3 * width * height,
        height * width == width * height,
{
    assert(3 * (width * height) == 3 * width * height) by (nonlinear_arith);
    assert(width * height >= 0) by (nonlinear_arith)
        requires
            width >= 0,
            height >= 0,
    ;
    assert(height * width == width * height) by (nonlinear_arith);
}

proof fn lemma_row_bounds(width: int, height: int, y: int, x: int)
    requires
        0 <= y < height,
        0 <= x < width,
    ensures
        0 <= x + (height - 1 - y) * width < width * height,
        0 <= y * width + x,
        (y * width + x) + 1 <= width * height,
        (y + 1) * width == y * width + width,
{
    assert(0 <= (height - 1 - y) * width) by (nonlinear_arith)
        requires
            height - 1 - y >= 0,
            width >= 0,
    ;
    assert((height - 1 - y) * width + width <= width * height) by (nonlinear_arith)
        requires
            0 <= y,
            width >= 0,
    ;
    assert(0 <= y * width) by (nonlinear_arith)
        requires
            y >= 0,
            width >= 0,
    ;
    assert(y * width + width <= width * height) by (nonlinear_arith)
        requires
            y + 1 <= height,
            width >= 0,
    ;
    assert((y + 1) * width == y * width + width) by (nonlinear_arith);
}

proof fn lemma_row_start(width: int, height: int, y: int)
    requires
        0 <= y < height,
        width >= 0,
    ensures
        0 <= (height - 1 - y) * width <= width * height,
        (y + 1) * width == y * width + width,
{
    assert(0 <= (height - 1 - y) * width) by (nonlinear_arith)
        requires
            height - 1 - y >= 0,
            width >= 0,
    ;
    assert((height - 1 - y) * width + width <= width * height) by (nonlinear_arith)
        requires
            0 <= y,
            width >= 0,
    ;
    assert((y + 1) * width == y * width + width) by (nonlinear_arith);
}

/// Writing pixel `(x, y)` of the file's row order extends the data by its
/// three bytes.
proof fn lemma_data_step(pixels: Seq<(u8, u8, u8)>, width: int, height: int, y: int, x: int)
    requires
        0 <= y < height,
        0 <= x < width,
        pixels.len() == width * height,
    ensures
        ({
            let p = y * width + x;
            let px = pixels[x + (height - 1 - y) * width];
            bmp_data(pixels, width, height, 3 * p + 3) == bmp_data(
                pixels,
                width,
                height,
                3 * p,
            ).push(px.2).push(px.1).push(px.0)
        }),
{
    let p = y * width + x;
    lemma_row_bounds(width, height, y, x);
    lemma_fundamental_div_mod_converse(p, width, y, x);
    assert((3 * p) / 3 == p && (3 * p + 1) / 3 == p && (3 * p + 2) / 3 == p);
    assert((3 * p) % 3 == 0 && (3 * p + 1) % 3 == 1 && (3 * p + 2) % 3 == 2);
    let px = pixels[x + (height - 1 - y) * width];
    assert(bmp_data(pixels, width, height, 3 * p + 3) =~= bmp_data(
        pixels,
        width,
        height,
        3 * p,
    ).push(px.2).push(px.1).push(px.0));
}

/// The bytes of a 24-bit bitmap file showing `pixels`, given top row first as
/// (red, green, blue); the file stores the bottom row first, as blue, green,
/// red, with no padding between rows.
pub fn encode_bmp(width: usize, height: usize, pixels: &Vec<(u8, u8, u8)>) -> (r: Vec<u8>)
    requires
        pixels@.len() == width * height,
        BMP_HEADER_LEN + 3 * width * height <= usize::MAX,
    ensures
        r@ == bmp_file(pixels@, width as nat, height as nat),
{
    let ghost w = width as int;
    let ghost h = height as int;
    proof {
        lemma_sizes(w, h);
    }
    let count: usize = width * height;
    let data: usize = 3 * count;
    let mut out: Vec<u8> = Vec::new();
    out.push(66u8);
    out.push(77u8);
    push_le32(&mut out, #[verifier::truncate] ((BMP_HEADER_LEN + data) as u32));
    push_le32(&mut out, 0);
    push_le32(&mut out, BMP_HEADER_LEN as u32);
    push_le32(&mut out, 40);
    push_le32(&mut out, #[verifier::truncate] (width as u32));
    push_le32(&mut out, #[verifier::truncate] (height as u32));
    push_le16(&mut out, 1);
    push_le16(&mut out, 24);
    push_le32(&mut out, 0);
    push_le32(&mut out, #[verifier::truncate] (data as u32));
    push_le32(&mut out, 2953);
    push_le32(&mut out, 2953);
    push_le32(&mut out, 0);
    push_le32(&mut out, 0);
    let ghost header = bmp_header(width as nat, height as nat);
    assert(out@ =~= header);
    assert(out@ =~= header + bmp_data(pixels@, w, h, 0));

    let mut y: usize = 0;
    while y < height
        invariant
            y <= height,
            w == width,
            h == height,
            pixels@.len() == w * h,
            w * h <= usize::MAX,
            out@ == header + bmp_data(pixels@, w, h, 3 * (y * w)),
        decreases height - y,
    {
        proof {
            lemma_row_start(w, h, y as int);
        }
        let row_start: usize = (height - 1 - y) * width;
        let mut x: usize = 0;
        while x < width
            invariant
                y < height,
                x <= width,
                w == width,
                h == height,
                pixels@.len() == w * h,
                w * h <= usize::MAX,
                row_start == (h - 1 - y) * w,
                (y + 1) * w == y * w + w,
                out@ == header + bmp_data(pixels@, w, h, 3 * (y * w + x)),
            decreases width - x,
        {
            proof {
                lemma_row_bounds(w, h, y as int, x as int);
                lemma_data_step(pixels@, w, h, y as int, x as int);
            }
            let px = pixels[row_start + x];
            out.push(px.2);
            out.push(px.1);
            out.push(px.0);
            assert(out@ =~= header + bmp_data(pixels@, w, h, 3 * (y * w + x + 1)));
            x = x + 1;
        }
        y = y + 1;
    }
    assert(out@ =~= bmp_file(pixels@, width as nat, height as nat));
    out
}

} // verus!
