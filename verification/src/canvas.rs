//! Drawing magnified glyphs straight into a plain `width`-wide pixel buffer
//! (used to paint wallpapers before they reach a framebuffer).
use vstd::prelude::*;
use crate::color::{blend_over_spec, Color};
use crate::font::{glyph_bit, glyph_of};
use crate::framebuffer::in_rect;
use crate::geometry::{lemma_index_split, lemma_pixel_index};

verus! {

/// `buf` with `color` composited over the pixels of the `s` by `s` square
/// at `x0`, `y0` that lie in the buffer.
pub open spec fn blend_square_pixels(buf: Seq<u32>, w: int, x0: int, y0: int, s: int, color: u32) -> Seq<u32> {
    Seq::new(buf.len(), |i: int|
        if in_rect(x0, y0, s, s, i % w, i / w) { blend_over_spec(buf[i], color) } else { buf[i] })
}

/// `buf` after compositing, in reading order, the `s` by `s` square of each
/// of the first `k` set cells of the glyph for `c` placed at `x`, `y`.
pub open spec fn glyph_buffer_upto(buf: Seq<u32>, w: int, x: int, y: int, c: char, s: int, color: u32, k: nat) -> Seq<u32>
    decreases k,
{
    if k == 0 {
        buf
    } else {
        let prev = glyph_buffer_upto(buf, w, x, y, c, s, color, (k - 1) as nat);
        let row = (k - 1) / 8;
        let col = (k - 1) % 8;
        if glyph_bit(glyph_of(c), row, col) {
            blend_square_pixels(prev, w, x + col * s, y + row * s, s, color)
        } else {
            prev
        }
    }
}

/// `buf` after drawing the characters of `text` magnified `s` times,
/// `8 * s` pixels apart, starting at `x`, `y`.
pub open spec fn text_buffer(buf: Seq<u32>, w: int, x: int, y: int, text: Seq<char>, s: int, color: u32) -> Seq<u32>
    decreases text.len(),
{
    if text.len() == 0 {
        buf
    } else {
        text_buffer(glyph_buffer_upto(buf, w, x, y, text[0], s, color, 64), w, x + 8 * s, y, text.drop_first(), s, color)
    }
}

/// Drawing a glyph keeps the buffer's length.
pub proof fn lemma_glyph_buffer_len(buf: Seq<u32>, w: int, x: int, y: int, c: char, s: int, color: u32, k: nat)
    ensures
        glyph_buffer_upto(buf, w, x, y, c, s, color, k).len() == buf.len(),
    decreases k,
{
    if k > 0 {
        lemma_glyph_buffer_len(buf, w, x, y, c, s, color, (k - 1) as nat);
    }
}

/// Drawing text keeps the buffer's length.
pub proof fn lemma_text_buffer_len(buf: Seq<u32>, w: int, x: int, y: int, text: Seq<char>, s: int, color: u32)
    ensures
        text_buffer(buf, w, x, y, text, s, color).len() == buf.len(),
    decreases text.len(),
{
    if text.len() > 0 {
        lemma_glyph_buffer_len(buf, w, x, y, text[0], s, color, 64);
        lemma_text_buffer_len(glyph_buffer_upto(buf, w, x, y, text[0], s, color, 64), w, x + 8 * s, y, text.drop_first(), s, color);
    }
}

/// Composites `color` over the part of the `s` by `s` square at `x0`, `y0`
/// that lies in the `w` by `h` buffer.
pub fn blend_square(buf: &mut Vec<u32>, w: usize, h: usize, x0: isize, y0: isize, s: usize, color: Color)
    requires
        old(buf)@.len() == w * h,
        w * h <= usize::MAX,
        w <= isize::MAX,
        h <= isize::MAX,
        s <= isize::MAX,
        x0 + s <= isize::MAX,
        y0 + s <= isize::MAX,
    ensures
        final(buf)@ == blend_square_pixels(old(buf)@, w as int, x0 as int, y0 as int, s as int, color.raw),
{
    let ghost orig = buf@;
    let ex = x0 + s as isize;
    let ey = y0 + s as isize;
    let x1: isize = if x0 > 0 { x0 } else { 0 };
    let y1: isize = if y0 > 0 { y0 } else { 0 };
    let x2: isize = if ex < w as isize { ex } else { w as isize };
    let y2: isize = if ey < h as isize { ey } else { h as isize };
    if x1 >= x2 || y1 >= y2 {
        assert forall|i: int| 0 <= i < buf@.len() implies #[trigger] buf@[i]
            == blend_square_pixels(orig, w as int, x0 as int, y0 as int, s as int, color.raw)[i] by {
            lemma_index_split(i, w as int, h as int);
        }
        assert(buf@ =~= blend_square_pixels(orig, w as int, x0 as int, y0 as int, s as int, color.raw));
        return;
    }
    let x1 = x1 as usize;
    let x2 = x2 as usize;
    let mut row = y1 as usize;
    let y2 = y2 as usize;
    while row < y2
        invariant
            buf@.len() == orig.len(),
            orig.len() == w * h,
            w * h <= usize::MAX,
            w <= isize::MAX,
            h <= isize::MAX,
            x1 == (if x0 > 0 { x0 as int } else { 0 }),
            x2 == (if x0 + s < w { x0 + s } else { w as int }),
            y2 == (if y0 + s < h { y0 + s } else { h as int }),
            x1 < x2,
            (if y0 > 0 { y0 as int } else { 0 }) <= row <= y2,
            buf@ == Seq::new(orig.len(), |i: int|
                if in_rect(x0 as int, y0 as int, s as int, s as int, i % (w as int), i / (w as int)) && i / (w as int) < row {
                    blend_over_spec(orig[i], color.raw)
                } else {
                    orig[i]
                }),
        decreases y2 - row,
    {
        let mut col = x1;
        while col < x2
            invariant
                buf@.len() == orig.len(),
                orig.len() == w * h,
                w * h <= usize::MAX,
                w <= isize::MAX,
                h <= isize::MAX,
                x1 == (if x0 > 0 { x0 as int } else { 0 }),
                x2 == (if x0 + s < w { x0 + s } else { w as int }),
                y2 == (if y0 + s < h { y0 + s } else { h as int }),
                (if y0 > 0 { y0 as int } else { 0 }) <= row < y2,
                x1 <= col <= x2,
                buf@ == Seq::new(orig.len(), |i: int|
                    if in_rect(x0 as int, y0 as int, s as int, s as int, i % (w as int), i / (w as int))
                        && (i / (w as int) < row || (i / (w as int) == row && i % (w as int) < col)) {
                        blend_over_spec(orig[i], color.raw)
                    } else {
                        orig[i]
                    }),
            decreases x2 - col,
        {
            proof {
                lemma_pixel_index(row as int, col as int, w as int, h as int);
            }
            let idx = row * w + col;
            let ghost before = buf@;
            let v = Color::from_raw(buf[idx]).blend_over(color).raw;
            buf.set(idx, v);
            assert forall|i: int| 0 <= i < buf@.len() implies #[trigger] buf@[i] == (
                if in_rect(x0 as int, y0 as int, s as int, s as int, i % (w as int), i / (w as int))
                    && (i / (w as int) < row || (i / (w as int) == row && i % (w as int) < col + 1)) {
                    blend_over_spec(orig[i], color.raw)
                } else {
                    orig[i]
                }) by {
                lemma_index_split(i, w as int, h as int);
                if i != idx {
                    if i / (w as int) == row && i % (w as int) == col {
                        assert(i == row * w + col);
                    }
                    assert(buf@[i] == before[i]);
                }
            }
            assert(buf@ =~= Seq::new(orig.len(), |i: int|
                if in_rect(x0 as int, y0 as int, s as int, s as int, i % (w as int), i / (w as int))
                    && (i / (w as int) < row || (i / (w as int) == row && i % (w as int) < col + 1)) {
                    blend_over_spec(orig[i], color.raw)
                } else {
                    orig[i]
                }));
            col = col + 1;
        }
        assert(buf@ =~= Seq::new(orig.len(), |i: int|
            if in_rect(x0 as int, y0 as int, s as int, s as int, i % (w as int), i / (w as int)) && i / (w as int) < row + 1 {
                blend_over_spec(orig[i], color.raw)
            } else {
                orig[i]
            })) by {
            assert forall|i: int| 0 <= i < buf@.len() implies #[trigger] buf@[i] == (
                if in_rect(x0 as int, y0 as int, s as int, s as int, i % (w as int), i / (w as int)) && i / (w as int) < row + 1 {
                    blend_over_spec(orig[i], color.raw)
                } else {
                    orig[i]
                }) by {
                lemma_index_split(i, w as int, h as int);
            }
        }
        row = row + 1;
    }
    assert forall|i: int| 0 <= i < buf@.len() implies #[trigger] buf@[i]
        == blend_square_pixels(orig, w as int, x0 as int, y0 as int, s as int, color.raw)[i] by {
        lemma_index_split(i, w as int, h as int);
    }
    assert(buf@ =~= blend_square_pixels(orig, w as int, x0 as int, y0 as int, s as int, color.raw));
}

/// Draws character `c` magnified `scale` times at `x`, `y` into the `w` by
/// `h` buffer, compositing `color` over what is there.
pub fn draw_char_to_buffer(buf: &mut Vec<u32>, w: usize, h: usize, x: isize, y: isize, c: char, scale: usize, color: Color)
    requires
        old(buf)@.len() == w * h,
        w * h <= usize::MAX,
        w <= isize::MAX,
        h <= isize::MAX,
        8 * scale <= isize::MAX,
        x + 8 * scale <= isize::MAX,
        y + 8 * scale <= isize::MAX,
    ensures
        final(buf)@ == glyph_buffer_upto(old(buf)@, w as int, x as int, y as int, c, scale as int, color.raw, 64),
{
    let ghost orig = buf@;
    let glyph = crate::font::get_glyph(c);
    let mut k: usize = 0;
    while k < 64
        invariant
            buf@.len() == w * h,
            w * h <= usize::MAX,
            w <= isize::MAX,
            h <= isize::MAX,
            glyph@ == glyph_of(c),
            glyph@.len() == 8,
            8 * scale <= isize::MAX,
            x + 8 * scale <= isize::MAX,
            y + 8 * scale <= isize::MAX,
            k <= 64,
            buf@ == glyph_buffer_upto(orig, w as int, x as int, y as int, c, scale as int, color.raw, k as nat),
        decreases 64 - k,
    {
        let row = k / 8;
        let col = k % 8;
        assert(row * scale <= 7 * scale && col * scale <= 7 * scale) by (nonlinear_arith)
            requires row < 8, col < 8;
        if crate::font::row_has_pixel(glyph[row], col) {
            let px = x + (col * scale) as isize;
            let py = y + (row * scale) as isize;
            blend_square(buf, w, h, px, py, scale, color);
        }
        k = k + 1;
    }
}

/// Draws `text` magnified `scale` times from `x`, `y` into the `w` by `h`
/// buffer, one character every `8 * scale` pixels.
pub fn draw_text_to_buffer(buf: &mut Vec<u32>, w: usize, h: usize, x: isize, y: isize, text: &[char], scale: usize, color: Color)
    requires
        old(buf)@.len() == w * h,
        w * h <= usize::MAX,
        w <= isize::MAX,
        h <= isize::MAX,
        8 * scale <= isize::MAX,
        x + 8 * scale * (text@.len() + 1) <= isize::MAX,
        y + 8 * scale <= isize::MAX,
    ensures
        final(buf)@ == text_buffer(old(buf)@, w as int, x as int, y as int, text@, scale as int, color.raw),
{
    let ghost target = text_buffer(buf@, w as int, x as int, y as int, text@, scale as int, color.raw);
    let step = 8 * scale;
    let mut ci: usize = 0;
    let mut cx = x;
    assert(text@.skip(0) =~= text@);
    while ci < text.len()
        invariant
            buf@.len() == w * h,
            w * h <= usize::MAX,
            w <= isize::MAX,
            h <= isize::MAX,
            step == 8 * scale,
            8 * scale <= isize::MAX,
            x + 8 * scale * (text@.len() + 1) <= isize::MAX,
            y + 8 * scale <= isize::MAX,
            ci <= text@.len(),
            cx == x + step * ci,
            text_buffer(buf@, w as int, cx as int, y as int, text@.skip(ci as int), scale as int, color.raw) == target,
        decreases text@.len() - ci,
    {
        assert(step * (ci + 1) <= 8 * scale * text@.len()) by (nonlinear_arith)
            requires step == 8 * scale, ci + 1 <= text@.len(), scale >= 0;
        assert(step * (ci + 1) == step * ci + step) by (nonlinear_arith);
        assert(8 * scale * (text@.len() + 1) == 8 * scale * text@.len() + 8 * scale) by (nonlinear_arith);
        let ghost rest = text@.skip(ci as int);
        assert(rest[0] == text@[ci as int]);
        assert(rest.drop_first() =~= text@.skip(ci + 1));
        let ghost before = buf@;
        draw_char_to_buffer(buf, w, h, cx, y, text[ci], scale, color);
        proof {
            lemma_glyph_buffer_len(before, w as int, cx as int, y as int, text[ci as int], scale as int, color.raw, 64);
        }
        cx = cx + step as isize;
        ci = ci + 1;
    }
}

} // verus!
