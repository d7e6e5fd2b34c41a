//! The 8x8 bitmap font used for all text on the desktop.
//!
//! Glyph rows come from the public-domain basic-latin table of the `font8x8`
//! crate, one byte per row, top row first. That table keeps the leftmost
//! pixel in the least significant bit; the rows handed out here are
//! mirrored so that the most significant bit is the leftmost pixel, and
//! column `c` of a row `b` is set when `b & (0x80 >> c) != 0`.
use vstd::prelude::*;

verus! {

/// Width of one glyph cell in pixels.
pub const FONT_WIDTH: usize = 8;
/// Height of one glyph cell in pixels.
pub const FONT_HEIGHT: usize = 8;

/// The eight row bitmaps of basic-latin code point `code` (below 128) in
/// `font8x8::legacy::BASIC_LEGACY`.
pub uninterp spec fn legacy_glyph_rows(code: nat) -> Seq<u8>;

/// Reads the eight row bitmaps of basic-latin code point `code` from
/// `font8x8::legacy::BASIC_LEGACY`. Claimed: the rows are those of that
/// table entry (named, not spelled out); the table has 128 entries, so any
/// `code` below 128 is a valid index.
#[verifier::external_body]
fn legacy_glyph(code: usize) -> (rows: [u8; 8])
    requires
        code < 128,
    ensures
        rows@ == legacy_glyph_rows(code as nat),
{
    font8x8::legacy::BASIC_LEGACY[code]
}

/// The code point whose glyph stands for `c`: `c` itself when it is basic
/// latin, otherwise the question mark.
pub open spec fn glyph_code(c: char) -> nat {
    if (c as u32) < 128 { (c as u32) as nat } else { 63 }
}

/// `b` with its bits in the opposite order (bit 0 becomes bit 7).
pub open spec fn mirrored(b: u8) -> u8 {
    ((b & 1u8) << 7u8) | ((b & 2u8) << 5u8) | ((b & 4u8) << 3u8) | ((b & 8u8) << 1u8)
        | ((b & 16u8) >> 1u8) | ((b & 32u8) >> 3u8) | ((b & 64u8) >> 5u8) | ((b & 128u8) >> 7u8)
}

/// The rows that are drawn for `c`: its table rows mirrored, so that the
/// most significant bit is the leftmost pixel.
pub open spec fn glyph_of(c: char) -> Seq<u8> {
    legacy_glyph_rows(glyph_code(c)).map_values(|b: u8| mirrored(b))
}

/// Whether the glyph rows `g` have the pixel at `row`, `col` set: bit
/// `0x80 >> col` of row `row`.
pub open spec fn glyph_bit(g: Seq<u8>, row: int, col: int) -> bool {
    g[row] & (0x80u8 >> (col as u8)) != 0
}

/// `b` mirrored.
pub fn mirror(b: u8) -> (r: u8)
    ensures
        r == mirrored(b),
{
    ((b & 1u8) << 7u8) | ((b & 2u8) << 5u8) | ((b & 4u8) << 3u8) | ((b & 8u8) << 1u8)
        | ((b & 16u8) >> 1u8) | ((b & 32u8) >> 3u8) | ((b & 64u8) >> 5u8) | ((b & 128u8) >> 7u8)
}

/// The glyph rows for `c` (the question mark's for characters outside
/// basic latin), mirrored from the table so that bit 7 is the leftmost
/// pixel.
pub fn get_glyph(c: char) -> (g: [u8; 8])
    ensures
        g@ == glyph_of(c),
        g@.len() == 8,
{
    let code = c as u32;
    let rows = if code < 128 { legacy_glyph(code as usize) } else { legacy_glyph(63) };
    let g: [u8; 8] = [
        mirror(rows[0]), mirror(rows[1]), mirror(rows[2]), mirror(rows[3]),
        mirror(rows[4]), mirror(rows[5]), mirror(rows[6]), mirror(rows[7]),
    ];
    assert(g@ =~= glyph_of(c));
    g
}

/// Whether column `col` (0 = leftmost pixel) of the row bitmap `byte` is
/// set: bit `0x80 >> col`.
pub fn row_has_pixel(byte: u8, col: usize) -> (b: bool)
    requires
        col < 8,
    ensures
        b == (byte & (0x80u8 >> (col as u8)) != 0),
{
    byte & (0x80u8 >> (col as u8)) != 0
}

} // verus!
