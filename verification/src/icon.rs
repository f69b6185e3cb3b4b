//! The tray icon's pixels, taken from the idle tile of the sprite sheet.

use vstd::prelude::*;

verus! {

/// The byte order of a pixel in an icon.
#[derive(PartialEq, Eq, Structural, Clone, Copy, Debug)]
pub enum ChannelOrder {
    /// Alpha, red, green, blue (the status-notifier order).
    Argb,
    /// Red, green, blue, alpha.
    Rgba,
}

/// The four bytes of the pixel that starts at byte `i` of a sheet with `n_channels`
/// bytes per pixel; a sheet without a fourth channel is opaque.
pub open spec fn pixel_bytes(pixels: Seq<u8>, i: int, n_channels: int, order: ChannelOrder) -> Seq<u8> {
    let r: u8 = pixels[i];
    let g: u8 = pixels[i + 1];
    let b: u8 = pixels[i + 2];
    let a = if n_channels == 4 { pixels[i + 3] } else { 255u8 };
    match order {
        ChannelOrder::Argb => seq![a, r, g, b],
        ChannelOrder::Rgba => seq![r, g, b, a],
    }
}

/// The first `x` pixels of row `y`, converted.
pub open spec fn row_bytes(
    pixels: Seq<u8>,
    y: int,
    x: nat,
    rowstride: int,
    n_channels: int,
    order: ChannelOrder,
) -> Seq<u8>
    decreases x,
{
    if x == 0 {
        Seq::empty()
    } else {
        row_bytes(pixels, y, (x - 1) as nat, rowstride, n_channels, order)
            + pixel_bytes(pixels, y * rowstride + (x - 1) * n_channels, n_channels, order)
    }
}

/// The first `y` rows of `width` pixels, converted, row after row.
pub open spec fn image_bytes(
    pixels: Seq<u8>,
    y: nat,
    width: nat,
    rowstride: int,
    n_channels: int,
    order: ChannelOrder,
) -> Seq<u8>
    decreases y,
{
    if y == 0 {
        Seq::empty()
    } else {
        image_bytes(pixels, (y - 1) as nat, width, rowstride, n_channels, order)
            + row_bytes(pixels, y - 1, width, rowstride, n_channels, order)
    }
}

/// The largest byte index the conversion reads.
pub open spec fn last_read(width: int, height: int, rowstride: int, n_channels: int) -> int {
    (height - 1) * rowstride + (width - 1) * n_channels + if n_channels == 4 { 3int } else { 2int }
}

/// The largest byte index the conversion of a non-empty tile reads (an overflowing
/// computation yields `usize::MAX`).
pub fn last_read_index(width: usize, height: usize, rowstride: usize, n_channels: usize) -> (r: usize)
    requires
        width > 0,
        height > 0,
    ensures
        r == last_read(width as int, height as int, rowstride as int, n_channels as int)
            || (r == usize::MAX && last_read(width as int, height as int, rowstride as int, n_channels as int) >= usize::MAX),
{
    let extra: usize = if n_channels == 4 { 3 } else { 2 };
    match (height - 1).checked_mul(rowstride) {
        Some(a) => match (width - 1).checked_mul(n_channels) {
            Some(b) => match a.checked_add(b) {
                Some(c) => match c.checked_add(extra) {
                    Some(d) => d,
                    None => usize::MAX,
                },
                None => usize::MAX,
            },
            None => {
                assert((width - 1) * n_channels > usize::MAX);
                usize::MAX
            },
        },
        None => {
            assert((height - 1) * rowstride > usize::MAX);
            usize::MAX
        },
    }
}

/// Converts a `width` x `height` tile, whose rows start every `rowstride` bytes and
/// whose pixels take `n_channels` bytes each, to 4-byte pixels in `order`, row after
/// row.
pub fn tile_pixels(
    pixels: &[u8],
    width: usize,
    height: usize,
    rowstride: usize,
    n_channels: usize,
    order: ChannelOrder,
) -> (out: Vec<u8>)
    requires
        width > 0 && height > 0 ==> last_read(width as int, height as int, rowstride as int, n_channels as int) < pixels@.len(),
    ensures
        out@ == image_bytes(pixels@, height as nat, width as nat, rowstride as int, n_channels as int, order),
{
    let mut out: Vec<u8> = Vec::new();
    let plen: usize = pixels.len();
    let mut y: usize = 0;
    while y < height
        invariant
            y <= height,
            plen == pixels@.len(),
            width > 0 && height > 0 ==> last_read(width as int, height as int, rowstride as int, n_channels as int) < pixels@.len(),
            out@ == image_bytes(pixels@, y as nat, width as nat, rowstride as int, n_channels as int, order),
        decreases height - y,
    {
        let ghost start = out@;
        let mut x: usize = 0;
        assert(out@ =~= start + row_bytes(pixels@, y as int, 0, rowstride as int, n_channels as int, order));
        while x < width
            invariant
                y < height,
                x <= width,
                plen == pixels@.len(),
                width > 0 && height > 0 ==> last_read(width as int, height as int, rowstride as int, n_channels as int) < pixels@.len(),
                out@ == start + row_bytes(pixels@, y as int, x as nat, rowstride as int, n_channels as int, order),
            decreases width - x,
        {
            proof {
                assert(y * rowstride <= (height - 1) * rowstride) by (nonlinear_arith)
                    requires
                        y < height,
                ;
                assert(x * n_channels <= (width - 1) * n_channels) by (nonlinear_arith)
                    requires
                        x < width,
                ;
            }
            let i: usize = y * rowstride + x * n_channels;
            let r: u8 = pixels[i];
            let g: u8 = pixels[i + 1];
            let b: u8 = pixels[i + 2];
            let a: u8 = if n_channels == 4 { pixels[i + 3] } else { 255 };
            let ghost before = out@;
            match order {
                ChannelOrder::Argb => {
                    out.push(a);
                    out.push(r);
                    out.push(g);
                    out.push(b);
                },
                ChannelOrder::Rgba => {
                    out.push(r);
                    out.push(g);
                    out.push(b);
                    out.push(a);
                },
            }
            proof {
                assert(out@ =~= before + pixel_bytes(pixels@, i as int, n_channels as int, order));
                assert(start + row_bytes(pixels@, y as int, (x + 1) as nat, rowstride as int, n_channels as int, order)
                    =~= before + pixel_bytes(pixels@, i as int, n_channels as int, order));
            }
            x = x + 1;
        }
        proof {
            assert(out@ =~= image_bytes(pixels@, (y + 1) as nat, width as nat, rowstride as int, n_channels as int, order));
        }
        y = y + 1;
    }
    out
}

} // verus!
