//! The pixel unpacker: from a host frame buffer to a canonical image buffer.
//!
//! A canonical buffer is tightly packed, runs top-down, holds its channels in
//! the order red, green, blue (and alpha), and is exactly
//! `width * height * channels` bytes long.

use crate::error::PipelineError;
use vstd::arithmetic::div_mod::{
    lemma_div_denominator, lemma_fundamental_div_mod_converse_div,
    lemma_fundamental_div_mod_converse_mod,
};
use vstd::prelude::*;

verus! {

/// `n` rounded up to the next multiple of four.
pub open spec fn align4(n: int) -> int {
    ((n + 3) / 4) * 4
}

/// The length in bytes of one row of a packed 8-bit frame, padding included.
pub open spec fn row_stride(width: int, channels: int) -> int {
    align4(width * channels)
}

/// The stride of a row is the least multiple of four that holds the row's
/// pixels.
pub proof fn lemma_row_stride_is_aligned(width: int, channels: int)
    ensures
        row_stride(width, channels) % 4 == 0,
        width * channels <= row_stride(width, channels) < width * channels + 4,
{
}

/// The channel of a blue-green-red(-alpha) pixel that holds output channel `k`:
/// blue and red change places, green and alpha stay.
pub open spec fn swapped(k: int) -> int {
    if k == 0 {
        2
    } else if k == 2 {
        0
    } else {
        k
    }
}

/// Whether a buffer of `len` bytes holds a packed 8-bit frame of the given
/// dimensions.
pub open spec fn packed8_fits(len: int, width: int, height: int, channels: int) -> bool {
    &&& (channels == 3 || channels == 4)
    &&& row_stride(width, channels) * height <= len
}

/// The position in a packed 8-bit, bottom-up frame of the byte that becomes
/// byte `i` of the canonical buffer.
pub open spec fn packed8_source(width: int, height: int, channels: int, i: int) -> int {
    let pixel = i / channels;
    let k = i % channels;
    let y = pixel / width;
    let x = pixel % width;
    (height - 1 - y) * row_stride(width, channels) + x * channels + swapped(k)
}

/// The canonical buffer of a packed 8-bit, bottom-up frame.
pub open spec fn unpacked8(raw: Seq<u8>, width: int, height: int, channels: int) -> Seq<u8> {
    Seq::new(
        (width * height * channels) as nat,
        |i: int| raw[packed8_source(width, height, channels, i)],
    )
}

/// Channel `k` of the pixel in column `x` of output row `y` is channel
/// `swapped(k)` of the pixel in column `x` of source row `height - 1 - y`.
///
/// In particular the bottom row of the source, which is stored first, comes
/// out as the last row, and a pixel stored as blue, green, red comes out as
/// red, green, blue.
pub proof fn lemma_unpacked8_pixel(
    raw: Seq<u8>,
    width: int,
    height: int,
    channels: int,
    y: int,
    x: int,
    k: int,
)
    requires
        0 <= y < height,
        0 <= x < width,
        0 <= k < channels,
    ensures
        0 <= (y * width + x) * channels + k < width * height * channels,
        packed8_source(width, height, channels, (y * width + x) * channels + k) == (height - 1
            - y) * row_stride(width, channels) + x * channels + swapped(k),
        unpacked8(raw, width, height, channels)[(y * width + x) * channels + k] == raw[(height
            - 1 - y) * row_stride(width, channels) + x * channels + swapped(k)],
{
    let pixel = y * width + x;
    let i = pixel * channels + k;
    assert(0 <= pixel < width * height) by (nonlinear_arith)
        requires
            0 <= y < height,
            0 <= x < width,
            pixel == y * width + x,
    ;
    assert(0 <= i < width * height * channels) by (nonlinear_arith)
        requires
            0 <= pixel < width * height,
            0 <= k < channels,
            i == pixel * channels + k,
    ;
    lemma_fundamental_div_mod_converse_div(i, channels, pixel, k);
    lemma_fundamental_div_mod_converse_mod(i, channels, pixel, k);
    lemma_fundamental_div_mod_converse_div(pixel, width, y, x);
    lemma_fundamental_div_mod_converse_mod(pixel, width, y, x);
}

/// Every byte that the canonical buffer takes from a frame that fits its
/// buffer lies inside that buffer.
pub proof fn lemma_packed8_source_in_bounds(
    len: int,
    width: int,
    height: int,
    channels: int,
    y: int,
    x: int,
    k: int,
)
    requires
        packed8_fits(len, width, height, channels),
        0 <= y < height,
        0 <= x < width,
        0 <= k < channels,
    ensures
        0 <= (height - 1 - y) * row_stride(width, channels) + x * channels + swapped(k) < len,
{
    let stride = row_stride(width, channels);
    let row = width * channels;
    assert(0 <= x * channels + swapped(k) < row) by (nonlinear_arith)
        requires
            0 <= x < width,
            0 <= swapped(k) < channels,
            row == width * channels,
    ;
    assert(row <= stride);
    assert(0 <= (height - 1 - y) * stride && (height - 1 - y) * stride + stride <= height
        * stride) by (nonlinear_arith)
        requires
            0 <= y < height,
            0 <= stride,
    ;
}

/// The canonical buffer depends on nothing past the frame: bytes of the
/// buffer after `row_stride * height` make no difference.
pub proof fn lemma_unpacked8_reads_frame_only(
    raw: Seq<u8>,
    width: int,
    height: int,
    channels: int,
)
    requires
        0 <= width,
        0 <= height,
        packed8_fits(raw.len() as int, width, height, channels),
    ensures
        unpacked8(raw.take(row_stride(width, channels) * height), width, height, channels)
            == unpacked8(raw, width, height, channels),
{
    let needed = row_stride(width, channels) * height;
    let cut = raw.take(needed);
    let whole = unpacked8(raw, width, height, channels);
    let part = unpacked8(cut, width, height, channels);
    assert(0 <= width * height * channels) by (nonlinear_arith)
        requires
            0 <= width,
            0 <= height,
            0 < channels,
    ;
    assert forall|i: int| 0 <= i < whole.len() implies part[i] == whole[i] by {
        let pixel = i / channels;
        let k = i % channels;
        let y = pixel / width;
        let x = pixel % width;
        assert(width > 0 && height > 0) by (nonlinear_arith)
            requires
                0 <= i < width * height * channels,
                0 <= width,
                0 <= height,
                0 < channels,
        ;
        assert(0 <= pixel < width * height) by (nonlinear_arith)
            requires
                0 <= i < width * height * channels,
                0 < channels,
                pixel == i / channels,
        ;
        assert(0 <= y < height) by (nonlinear_arith)
            requires
                0 <= pixel < width * height,
                0 < width,
                y == pixel / width,
        ;
        lemma_packed8_source_in_bounds(needed, width, height, channels, y, x, k);
    }
    assert(part =~= whole);
}

/// The number of bytes that a packed 8-bit frame of the given dimensions
/// occupies, where the channel count is 3 or 4 and the number fits the
/// machine.
pub fn packed8_len(width: u32, height: u32, channels: usize) -> (len: Option<usize>)
    ensures
        len matches Some(n) ==> (channels == 3 || channels == 4) && n == row_stride(
            width as int,
            channels as int,
        ) * height,
        len is None ==> !((channels == 3 || channels == 4) && row_stride(
            width as int,
            channels as int,
        ) * height <= usize::MAX),
{
    if channels != 3 && channels != 4 {
        return None;
    }
    assert((width as u128) * (channels as u128) <= 0x4_0000_0000) by (nonlinear_arith)
        requires
            width <= 0xffff_ffff,
            channels <= 4,
    ;
    let row_wide: u128 = (width as u128) * (channels as u128);
    let stride_wide: u128 = ((row_wide + 3) / 4) * 4;
    assert(stride_wide * (height as u128) <= 0x4_0000_0000_0000_0000) by (nonlinear_arith)
        requires
            stride_wide <= 0x4_0000_0000,
            height <= 0xffff_ffff,
    ;
    let needed: u128 = stride_wide * (height as u128);
    if needed > usize::MAX as u128 {
        None
    } else {
        Some(needed as usize)
    }
}

/// Unpacks a packed 8-bit frame: rows stored bottom-up and padded to four
/// bytes, pixels stored blue, green, red (and alpha).
///
/// The result is the canonical buffer: output row `y` is source row
/// `height - 1 - y`, with blue and red exchanged in every pixel and the
/// padding dropped. A buffer shorter than `row_stride * height` bytes, or a
/// channel count other than 3 or 4, is refused and nothing is read.
pub fn unpack_packed8(raw: &[u8], width: u32, height: u32, channels: usize) -> (result: Result<
    Vec<u8>,
    PipelineError,
>)
    ensures
        result is Ok <==> packed8_fits(raw@.len() as int, width as int, height as int, channels as int),
        result matches Ok(out) ==> out@ == unpacked8(
            raw@,
            width as int,
            height as int,
            channels as int,
        ),
        result matches Ok(out) ==> out@.len() == width * height * channels,
        result matches Err(e) ==> e == PipelineError::DataIntegrity,
{
    if channels != 3 && channels != 4 {
        return Err(PipelineError::DataIntegrity);
    }
    assert((width as u128) * (channels as u128) <= 0x4_0000_0000) by (nonlinear_arith)
        requires
            width <= 0xffff_ffff,
            channels <= 4,
    ;
    let row_wide: u128 = (width as u128) * (channels as u128);
    let stride_wide: u128 = ((row_wide + 3) / 4) * 4;
    assert(stride_wide * (height as u128) <= 0x4_0000_0000_0000_0000) by (nonlinear_arith)
        requires
            stride_wide <= 0x4_0000_0000,
            height <= 0xffff_ffff,
    ;
    let needed: u128 = stride_wide * (height as u128);
    let len: usize = raw.len();
    if needed > len as u128 {
        return Err(PipelineError::DataIntegrity);
    }
    let mut out: Vec<u8> = Vec::new();
    if height == 0 || width == 0 {
        assert(width as int * height as int * channels as int == 0) by (nonlinear_arith)
            requires
                height == 0 || width == 0,
        ;
        assert(out@ =~= unpacked8(raw@, width as int, height as int, channels as int));
        return Ok(out);
    }
    assert(stride_wide <= needed) by (nonlinear_arith)
        requires
            needed == stride_wide * (height as u128),
            height >= 1,
            stride_wide >= 0,
    ;
    let stride: usize = stride_wide as usize;
    let w: usize = width as usize;
    let h: usize = height as usize;
    let ghost total: int = width as int * height as int * channels as int;
    let mut y: usize = 0;
    while y < h
        invariant
            packed8_fits(raw@.len() as int, width as int, height as int, channels as int),
            len == raw@.len(),
            stride == row_stride(width as int, channels as int),
            w == width,
            h == height,
            w > 0,
            y <= h,
            out@.len() == (y * w) * channels,
            forall|j: int|
                0 <= j < out@.len() ==> out@[j] == raw@[packed8_source(
                    width as int,
                    height as int,
                    channels as int,
                    j,
                )],
        decreases h - y,
    {
        proof {
            lemma_packed8_source_in_bounds(
                raw@.len() as int,
                width as int,
                height as int,
                channels as int,
                y as int,
                0,
                0,
            );
            assert(0 * channels == 0);
            assert((h - 1 - y) * stride < raw@.len());
        }
        let row_start: usize = (h - 1 - y) * stride;
        let mut x: usize = 0;
        while x < w
            invariant
                packed8_fits(raw@.len() as int, width as int, height as int, channels as int),
                len == raw@.len(),
                stride == row_stride(width as int, channels as int),
                w == width,
                h == height,
                y < h,
                x <= w,
                row_start == (h - 1 - y) * stride,
                out@.len() == (y * w + x) * channels,
                forall|j: int|
                    0 <= j < out@.len() ==> out@[j] == raw@[packed8_source(
                        width as int,
                        height as int,
                        channels as int,
                        j,
                    )],
            decreases w - x,
        {
            proof {
                lemma_packed8_source_in_bounds(
                    raw@.len() as int,
                    width as int,
                    height as int,
                    channels as int,
                    y as int,
                    x as int,
                    0,
                );
                lemma_packed8_source_in_bounds(
                    raw@.len() as int,
                    width as int,
                    height as int,
                    channels as int,
                    y as int,
                    x as int,
                    channels - 1,
                );
                lemma_unpacked8_pixel(
                    raw@,
                    width as int,
                    height as int,
                    channels as int,
                    y as int,
                    x as int,
                    0,
                );
                lemma_unpacked8_pixel(
                    raw@,
                    width as int,
                    height as int,
                    channels as int,
                    y as int,
                    x as int,
                    1,
                );
                lemma_unpacked8_pixel(
                    raw@,
                    width as int,
                    height as int,
                    channels as int,
                    y as int,
                    x as int,
                    2,
                );
                lemma_unpacked8_pixel(
                    raw@,
                    width as int,
                    height as int,
                    channels as int,
                    y as int,
                    x as int,
                    channels - 1,
                );
                assert((y * w + x + 1) * channels == (y * w + x) * channels + channels)
                    by (nonlinear_arith);
                assert(0 <= x * channels) by (nonlinear_arith);
                assert(row_start + x * channels + 2 < raw@.len());
                assert(channels == 4 ==> row_start + x * channels + 3 < raw@.len());
            }
            let at: usize = row_start + x * channels;
            out.push(raw[at + 2]);
            out.push(raw[at + 1]);
            out.push(raw[at]);
            if channels == 4 {
                out.push(raw[at + 3]);
            }
            x = x + 1;
        }
        proof {
            assert((y * w + w) * channels == ((y + 1) * w) * channels) by (nonlinear_arith);
        }
        y = y + 1;
    }
    proof {
        assert((h * w) * channels == total) by (nonlinear_arith)
            requires
                total == width as int * height as int * channels as int,
                w == width,
                h == height,
        ;
        assert(out@ =~= unpacked8(raw@, width as int, height as int, channels as int));
    }
    Ok(out)
}

/// The 16-bit value stored low byte first at position `at` of `raw`.
pub open spec fn le16(raw: Seq<u8>, at: int) -> int {
    raw[at] as int + 256 * (raw[at + 1] as int)
}

/// `n / d` rounded to the nearest integer, a half rounding up.
pub open spec fn round_div(n: int, d: int) -> int {
    (n + d / 2) / d
}

/// A colour channel premultiplied by `a16`, divided out again and scaled to
/// eight bits. Only the low eight bits of the quotient are kept; where the
/// channel does not exceed its alpha, as premultiplication guarantees, these
/// are the whole quotient.
pub open spec fn unpremultiplied(c16: int, a16: int) -> int {
    round_div(c16 * 255, a16) % 256
}

/// A 16-bit alpha scaled to eight bits.
pub open spec fn alpha8(a16: int) -> int {
    round_div(a16, 257)
}

/// Alpha values below this bound count as fully transparent.
pub const ALPHA_FLOOR: u32 = 128;

/// Channel `k` (red, green, blue, alpha) of pixel number `pixel` of a
/// premultiplied 16-bit frame, as straight 8-bit colour.
pub open spec fn straight_channel(raw: Seq<u8>, pixel: int, k: int) -> int {
    let a16 = le16(raw, pixel * 8 + 6);
    if a16 < ALPHA_FLOOR {
        0
    } else if k == 3 {
        alpha8(a16)
    } else {
        unpremultiplied(le16(raw, pixel * 8 + 2 * k), a16)
    }
}

/// Whether a buffer of `len` bytes holds a premultiplied 16-bit frame of the
/// given dimensions.
pub open spec fn premultiplied16_fits(len: int, width: int, height: int) -> bool {
    width * height * 8 <= len
}

/// The canonical buffer of a premultiplied 16-bit, top-down frame.
pub open spec fn unpacked16(raw: Seq<u8>, width: int, height: int) -> Seq<u8> {
    Seq::new((width * height * 4) as nat, |i: int| straight_channel(raw, i / 4, i % 4) as u8)
}

/// Every channel of a straight pixel is a byte.
pub proof fn lemma_straight_channel_is_byte(raw: Seq<u8>, pixel: int, k: int)
    requires
        0 <= k < 4,
    ensures
        0 <= straight_channel(raw, pixel, k) <= 255,
{
    let a16 = le16(raw, pixel * 8 + 6);
    if a16 >= ALPHA_FLOOR && k == 3 {
        assert(a16 <= 65535);
    }
}

/// A pixel whose alpha is below the floor comes out as four zero bytes,
/// whatever its colour channels hold.
pub proof fn lemma_transparent_pixel(raw: Seq<u8>, width: int, height: int, pixel: int, k: int)
    requires
        0 <= pixel < width * height,
        0 <= k < 4,
        le16(raw, pixel * 8 + 6) < ALPHA_FLOOR,
    ensures
        0 <= pixel * 4 + k < width * height * 4,
        unpacked16(raw, width, height)[pixel * 4 + k] == 0,
{
    lemma_fundamental_div_mod_converse_div(pixel * 4 + k, 4, pixel, k);
    lemma_fundamental_div_mod_converse_mod(pixel * 4 + k, 4, pixel, k);
}

/// A pixel whose alpha is at its maximum comes out with each colour channel
/// divided by 257 and rounded, and with alpha 255.
pub proof fn lemma_opaque_pixel(raw: Seq<u8>, width: int, height: int, pixel: int, k: int)
    requires
        0 <= pixel < width * height,
        0 <= k < 4,
        le16(raw, pixel * 8 + 6) == 65535,
    ensures
        0 <= pixel * 4 + k < width * height * 4,
        k < 3 ==> unpacked16(raw, width, height)[pixel * 4 + k] == round_div(
            le16(raw, pixel * 8 + 2 * k),
            257,
        ),
        k == 3 ==> unpacked16(raw, width, height)[pixel * 4 + k] == 255,
{
    lemma_fundamental_div_mod_converse_div(pixel * 4 + k, 4, pixel, k);
    lemma_fundamental_div_mod_converse_mod(pixel * 4 + k, 4, pixel, k);
    if k < 3 {
        let c16 = le16(raw, pixel * 8 + 2 * k);
        assert(0 <= c16 <= 65535);
        lemma_div_denominator(c16 * 255 + 32767, 255, 257);
        assert((c16 * 255 + 32767) / 255 == c16 + 128);
        assert(round_div(c16 * 255, 65535) == round_div(c16, 257));
        assert(round_div(c16, 257) <= 255);
    }
}

/// Where a colour channel does not exceed its alpha, dividing the alpha out
/// gives a byte: nothing is cut off.
pub proof fn lemma_unpremultiplied_in_range(c16: int, a16: int)
    requires
        0 <= c16 <= a16,
        0 < a16,
    ensures
        unpremultiplied(c16, a16) == round_div(c16 * 255, a16),
        0 <= round_div(c16 * 255, a16) <= 255,
{
    let n = c16 * 255 + a16 / 2;
    assert(0 <= n < 256 * a16) by (nonlinear_arith)
        requires
            0 <= c16 <= a16,
            0 < a16,
            n == c16 * 255 + a16 / 2,
    ;
    assert(0 <= n / a16 < 256) by (nonlinear_arith)
        requires
            0 <= n < 256 * a16,
            0 < a16,
    ;
}

/// One colour channel of a premultiplied pixel as a straight byte.
fn straighten(c16: u32, a16: u32) -> (c8: u8)
    requires
        c16 <= 65535,
        ALPHA_FLOOR <= a16 <= 65535,
    ensures
        c8 == unpremultiplied(c16 as int, a16 as int),
{
    let quotient: u32 = (c16 * 255 + a16 / 2) / a16;
    (quotient % 256) as u8
}

/// The 16-bit value stored low byte first at `at`.
fn read_le16(raw: &[u8], at: usize) -> (value: u32)
    requires
        at + 1 < raw@.len(),
    ensures
        value == le16(raw@, at as int),
{
    raw[at] as u32 + 256 * (raw[at + 1] as u32)
}

/// The canonical buffer depends on nothing past the frame: bytes of the
/// buffer after `width * height * 8` make no difference.
pub proof fn lemma_unpacked16_reads_frame_only(raw: Seq<u8>, width: int, height: int)
    requires
        0 <= width,
        0 <= height,
        premultiplied16_fits(raw.len() as int, width, height),
    ensures
        unpacked16(raw.take(width * height * 8), width, height) == unpacked16(raw, width, height),
{
    let cut = raw.take(width * height * 8);
    let whole = unpacked16(raw, width, height);
    let part = unpacked16(cut, width, height);
    assert(0 <= width * height) by (nonlinear_arith)
        requires
            0 <= width,
            0 <= height,
    ;
    assert forall|i: int| 0 <= i < whole.len() implies part[i] == whole[i] by {
        let pixel = i / 4;
        assert(0 <= pixel < width * height);
        assert(le16(cut, pixel * 8 + 6) == le16(raw, pixel * 8 + 6));
        assert(le16(cut, pixel * 8) == le16(raw, pixel * 8));
        assert(le16(cut, pixel * 8 + 2) == le16(raw, pixel * 8 + 2));
        assert(le16(cut, pixel * 8 + 4) == le16(raw, pixel * 8 + 4));
    }
    assert(part =~= whole);
}

/// The number of bytes that a premultiplied 16-bit frame of the given
/// dimensions occupies, where the number fits the machine.
pub fn premultiplied16_len(width: u32, height: u32) -> (len: Option<usize>)
    ensures
        len matches Some(n) ==> n == width * height * 8,
        len is None ==> width * height * 8 > usize::MAX,
{
    assert((width as u128) * (height as u128) * 8 <= 0x8_0000_0000_0000_0000) by (nonlinear_arith)
        requires
            width <= 0xffff_ffff,
            height <= 0xffff_ffff,
    ;
    let needed: u128 = (width as u128) * (height as u128) * 8;
    if needed > usize::MAX as u128 {
        None
    } else {
        Some(needed as usize)
    }
}

/// Unpacks a premultiplied 16-bit frame: rows stored top-down without
/// padding, each pixel four 16-bit values (red, green, blue, alpha) stored
/// low byte first, the colours multiplied by alpha.
///
/// A pixel whose alpha is below [`ALPHA_FLOOR`] becomes four zero bytes.
/// Every other pixel has its alpha divided out of each colour channel,
/// `round(c * 255 / a)`, and its alpha scaled to `round(a / 257)`. A buffer
/// shorter than `width * height * 8` bytes is refused and nothing is read.
pub fn unpack_premultiplied16(raw: &[u8], width: u32, height: u32) -> (result: Result<
    Vec<u8>,
    PipelineError,
>)
    ensures
        result is Ok <==> premultiplied16_fits(raw@.len() as int, width as int, height as int),
        result matches Ok(out) ==> out@ == unpacked16(raw@, width as int, height as int),
        result matches Ok(out) ==> out@.len() == width * height * 4,
        result matches Err(e) ==> e == PipelineError::DataIntegrity,
{
    assert((width as u128) * (height as u128) * 8 <= 0x8_0000_0000_0000_0000) by (nonlinear_arith)
        requires
            width <= 0xffff_ffff,
            height <= 0xffff_ffff,
    ;
    let needed: u128 = (width as u128) * (height as u128) * 8;
    let len: usize = raw.len();
    if needed > len as u128 {
        return Err(PipelineError::DataIntegrity);
    }
    let pixels: usize = (needed / 8) as usize;
    assert(pixels == width as int * height as int);
    let mut out: Vec<u8> = Vec::new();
    let mut p: usize = 0;
    while p < pixels
        invariant
            len == raw@.len(),
            pixels * 8 <= len,
            p <= pixels,
            out@.len() == p * 4,
            forall|j: int|
                0 <= j < out@.len() ==> out@[j] == straight_channel(raw@, j / 4, j % 4) as u8,
        decreases pixels - p,
    {
        let at: usize = p * 8;
        let r16: u32 = read_le16(raw, at);
        let g16: u32 = read_le16(raw, at + 2);
        let b16: u32 = read_le16(raw, at + 4);
        let a16: u32 = read_le16(raw, at + 6);
        proof {
            lemma_fundamental_div_mod_converse_div(p * 4, 4, p as int, 0);
            lemma_fundamental_div_mod_converse_mod(p * 4, 4, p as int, 0);
            lemma_fundamental_div_mod_converse_div(p * 4 + 1, 4, p as int, 1);
            lemma_fundamental_div_mod_converse_mod(p * 4 + 1, 4, p as int, 1);
            lemma_fundamental_div_mod_converse_div(p * 4 + 2, 4, p as int, 2);
            lemma_fundamental_div_mod_converse_mod(p * 4 + 2, 4, p as int, 2);
            lemma_fundamental_div_mod_converse_div(p * 4 + 3, 4, p as int, 3);
            lemma_fundamental_div_mod_converse_mod(p * 4 + 3, 4, p as int, 3);
        }
        if a16 < ALPHA_FLOOR {
            out.push(0);
            out.push(0);
            out.push(0);
            out.push(0);
        } else {
            out.push(straighten(r16, a16));
            out.push(straighten(g16, a16));
            out.push(straighten(b16, a16));
            out.push(((a16 + 128) / 257) as u8);
        }
        p = p + 1;
    }
    proof {
        assert(pixels * 4 == width as int * height as int * 4);
        assert(out@ =~= unpacked16(raw@, width as int, height as int));
    }
    Ok(out)
}

/// The layouts in which the host hands out a frame.
#[derive(Clone, Copy, Debug, PartialEq, Eq, Structural)]
pub enum FrameFormat {
    /// Packed 8-bit, bottom-up, blue-green-red, rows padded to four bytes.
    Bgr24,
    /// Packed 8-bit, bottom-up, blue-green-red-alpha.
    Bgra32,
    /// 16 bits per channel, top-down, red-green-blue-alpha, premultiplied.
    Pa64,
}

impl FrameFormat {
    /// The number of channels of the canonical buffer made from this layout.
    pub open spec fn spec_channels(self) -> int {
        match self {
            FrameFormat::Bgr24 => 3,
            FrameFormat::Bgra32 => 4,
            FrameFormat::Pa64 => 4,
        }
    }

    /// The number of channels of the canonical buffer made from this layout.
    pub fn channels(&self) -> (count: usize)
        ensures
            count == self.spec_channels(),
    {
        match self {
            FrameFormat::Bgr24 => 3,
            FrameFormat::Bgra32 => 4,
            FrameFormat::Pa64 => 4,
        }
    }

    /// The number of bytes that a frame of this layout occupies.
    pub open spec fn spec_frame_len(self, width: int, height: int) -> int {
        match self {
            FrameFormat::Bgr24 => row_stride(width, 3) * height,
            FrameFormat::Bgra32 => row_stride(width, 4) * height,
            FrameFormat::Pa64 => width * height * 8,
        }
    }

    /// The number of bytes that a frame of this layout occupies, where the
    /// number fits the machine.
    pub fn frame_len(&self, width: u32, height: u32) -> (len: Option<usize>)
        ensures
            len matches Some(n) ==> n == self.spec_frame_len(width as int, height as int),
            len is None ==> self.spec_frame_len(width as int, height as int) > usize::MAX,
    {
        match self {
            FrameFormat::Bgr24 => packed8_len(width, height, 3),
            FrameFormat::Bgra32 => packed8_len(width, height, 4),
            FrameFormat::Pa64 => premultiplied16_len(width, height),
        }
    }

    /// The code by which the host is asked for a frame of this layout. The
    /// two packed 8-bit layouts share the host's code for uncompressed
    /// bitmaps.
    pub open spec fn spec_host_code(self) -> u32 {
        match self {
            FrameFormat::Bgr24 => 0,
            FrameFormat::Bgra32 => 0,
            FrameFormat::Pa64 => 0x3436_4150,
        }
    }

    /// The code by which the host is asked for a frame of this layout.
    pub fn host_code(&self) -> (code: u32)
        ensures
            code == self.spec_host_code(),
    {
        match self {
            FrameFormat::Bgr24 => 0,
            FrameFormat::Bgra32 => 0,
            FrameFormat::Pa64 => 0x3436_4150,
        }
    }

    /// Whether a buffer of `len` bytes holds a frame of this layout and the
    /// given dimensions.
    pub open spec fn fits(self, len: int, width: int, height: int) -> bool {
        match self {
            FrameFormat::Bgr24 => packed8_fits(len, width, height, 3),
            FrameFormat::Bgra32 => packed8_fits(len, width, height, 4),
            FrameFormat::Pa64 => premultiplied16_fits(len, width, height),
        }
    }

    /// The canonical buffer of a frame of this layout.
    pub open spec fn canonical(self, raw: Seq<u8>, width: int, height: int) -> Seq<u8> {
        match self {
            FrameFormat::Bgr24 => unpacked8(raw, width, height, 3),
            FrameFormat::Bgra32 => unpacked8(raw, width, height, 4),
            FrameFormat::Pa64 => unpacked16(raw, width, height),
        }
    }
}

/// Unpacks a host frame of the given layout into its canonical buffer.
///
/// The buffer is refused where it is too short for the dimensions.
pub fn unpack(raw: &[u8], width: u32, height: u32, format: FrameFormat) -> (result: Result<
    Vec<u8>,
    PipelineError,
>)
    ensures
        result is Ok <==> format.fits(raw@.len() as int, width as int, height as int),
        result matches Ok(out) ==> out@ == format.canonical(raw@, width as int, height as int),
        result matches Ok(out) ==> out@.len() == width * height * format.spec_channels(),
        result matches Err(e) ==> e == PipelineError::DataIntegrity,
{
    match format {
        FrameFormat::Bgr24 => unpack_packed8(raw, width, height, 3),
        FrameFormat::Bgra32 => unpack_packed8(raw, width, height, 4),
        FrameFormat::Pa64 => unpack_premultiplied16(raw, width, height),
    }
}

} // verus!
