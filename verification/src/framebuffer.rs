//! The software back buffer the desktop draws into, its clipping rectangle,
//! and every drawing primitive the windows and applications use.
use vstd::prelude::*;
use crate::bga::BgaDevice;
use crate::color::{blend_over_spec, Color};
use crate::geometry::{lemma_index_split, lemma_pixel_index};
use crate::palette;
use vstd::std_specs::iter::IteratorSpec;

verus! {

/// Whether pixel `col`, `row` lies on a `width` by `height` screen and, when a
/// clipping rectangle `(x1, y1, x2, y2)` is set, inside it (ends exclusive).
pub open spec fn visible(width: int, height: int, clip: Option<(isize, isize, isize, isize)>, col: int, row: int) -> bool {
    &&& 0 <= col < width
    &&& 0 <= row < height
    &&& match clip {
        None => true,
        Some((x1, y1, x2, y2)) => x1 <= col < x2 && y1 <= row < y2,
    }
}

/// Whether pixel `col`, `row` lies in the `w` by `h` rectangle at `x`, `y`.
pub open spec fn in_rect(x: int, y: int, w: int, h: int, col: int, row: int) -> bool {
    x <= col < x + w && y <= row < y + h
}

/// The pixels `buf` of a `width`-wide screen after compositing `color` over
/// every visible pixel of the `w` by `h` rectangle at `x`, `y`.
pub open spec fn fill_pixels(
    buf: Seq<u32>,
    width: int,
    height: int,
    clip: Option<(isize, isize, isize, isize)>,
    x: int,
    y: int,
    w: int,
    h: int,
    color: u32,
) -> Seq<u32> {
    Seq::new(buf.len(), |i: int|
        if in_rect(x, y, w, h, i % width, i / width) && visible(width, height, clip, i % width, i / width) {
            blend_over_spec(buf[i], color)
        } else {
            buf[i]
        })
}

/// The pixels `buf` with the pixels of row `row` whose column lies in
/// `x1..x2` replaced by `color` composited over them.
pub open spec fn blend_span(buf: Seq<u32>, width: int, row: int, x1: int, x2: int, color: u32) -> Seq<u32> {
    Seq::new(buf.len(), |i: int|
        if i / width == row && x1 <= i % width < x2 { blend_over_spec(buf[i], color) } else { buf[i] })
}

/// A size past `isize::MAX` taken as signed is negative.
proof fn lemma_wraps_negative(w: usize)
    requires
        w > isize::MAX,
    ensures
        (w as isize) < 0,
{
    assert(usize::BITS == 32 || usize::BITS == 64);
    if usize::BITS == 64 {
        assert(isize::MAX == 0x7fff_ffff_ffff_ffff);
        assert((w as isize) < 0) by (bit_vector)
            requires usize::BITS == 64, (w as u64) >= 0x8000_0000_0000_0000u64;
    } else {
        assert(isize::MAX == 0x7fff_ffff);
        assert((w as isize) < 0) by (bit_vector)
            requires usize::BITS == 32, (w as u64) >= 0x8000_0000u64, (w as u64) <= 0xffff_ffffu64;
    }
}

/// A size taken as a signed number, as `w as isize` takes it: a size past
/// `isize::MAX` becomes negative, which leaves a rectangle empty (0 here).
#[verifier::inline]
pub open spec fn signed_size(w: usize) -> int {
    if w <= isize::MAX { w as int } else { 0 }
}

/// A rectangle whose far edges can be computed without overflow.
pub open spec fn rect_fits(x: int, y: int, w: int, h: int) -> bool {
    &&& w <= isize::MAX
    &&& h <= isize::MAX
    &&& x + w <= isize::MAX
    &&& y + h <= isize::MAX
}

/// `a - b`, or 0 when `b` exceeds `a`.
pub open spec fn sat_sub(a: int, b: int) -> int {
    if a >= b { a - b } else { 0 }
}

/// The color of window drop shadows.
pub open spec fn shadow_color() -> u32 {
    crate::color::pack_argb(255, 10, 14, 22)
}

/// The characters after the first `k` of `text` keep the same first line,
/// shortened by `k`, as long as no line break came before them.
pub proof fn lemma_first_line_prefix(text: Seq<char>, k: int)
    requires
        0 <= k <= Framebuffer::first_line(text).len(),
    ensures
        Framebuffer::first_line(text.skip(k)).len() == Framebuffer::first_line(text).len() - k,
        k <= text.len(),
    decreases k,
{
    lemma_first_line_len(text);
    if k > 0 {
        assert(text.len() > 0 && text[0] != '\n');
        assert(text.drop_first().skip(k - 1) =~= text.skip(k));
        lemma_first_line_prefix(text.drop_first(), k - 1);
    } else {
        assert(text.skip(0) =~= text);
    }
}

/// The first line is no longer than the text.
pub proof fn lemma_first_line_len(text: Seq<char>)
    ensures
        Framebuffer::first_line(text).len() <= text.len(),
    decreases text.len(),
{
    if text.len() > 0 && text[0] != '\n' {
        lemma_first_line_len(text.drop_first());
    }
}

/// `char_scaled_upto` depends only on the frame (size and clip) of the
/// framebuffer it is read through.
pub proof fn lemma_scaled_frame_only(fb: Framebuffer, buf: Seq<u32>, x: int, y: int, c: char, scale: int, color: u32, k: nat)
    ensures
        forall|other: Framebuffer| other.width == fb.width && other.height == fb.height && other.clip == fb.clip
            ==> #[trigger] other.char_scaled_upto(buf, x, y, c, scale, color, k) == fb.char_scaled_upto(buf, x, y, c, scale, color, k),
    decreases k,
{
    if k > 0 {
        lemma_scaled_frame_only(fb, buf, x, y, c, scale, color, (k - 1) as nat);
        assert forall|other: Framebuffer| other.width == fb.width && other.height == fb.height && other.clip == fb.clip
            implies #[trigger] other.char_scaled_upto(buf, x, y, c, scale, color, k) == fb.char_scaled_upto(buf, x, y, c, scale, color, k) by {
            let p1 = other.char_scaled_upto(buf, x, y, c, scale, color, (k - 1) as nat);
            let row = (k - 1) / 8;
            let col = (k - 1) % 8;
            assert(other.filled(p1, x + col * scale, y + row * scale, scale, scale, color)
                =~= fb.filled(p1, x + col * scale, y + row * scale, scale, scale, color));
        }
    }
}

/// Whether bit `col` of a cursor row mask is set.
pub open spec fn cursor_bit(mask: u16, col: int) -> bool {
    0 <= col < 16 && (mask >> (col as u16)) & 1u16 == 1u16
}

/// The outline (black) cells of row `row` of the arrow pointer, bit `c` for column `c`.
pub open spec fn cursor_outline(row: int) -> u16 {
    if row == 0 { 0x0001 } else if row == 1 { 0x0003 } else if row == 2 { 0x0005 }
    else if row == 3 { 0x0009 } else if row == 4 { 0x0011 } else if row == 5 { 0x0021 }
    else if row == 6 { 0x0041 } else if row == 7 { 0x0081 } else if row == 8 { 0x0101 }
    else if row == 9 { 0x0201 } else if row == 10 { 0x07C1 } else if row == 11 { 0x0049 }
    else if row == 12 { 0x0095 } else if row == 13 { 0x0093 } else if row == 14 { 0x0121 }
    else if row == 15 { 0x0120 } else if row == 16 { 0x00C0 } else { 0 }
}

/// The fill (white) cells of row `row` of the arrow pointer, bit `c` for column `c`.
pub open spec fn cursor_fill(row: int) -> u16 {
    if row == 2 { 0x0002 } else if row == 3 { 0x0006 } else if row == 4 { 0x000E }
    else if row == 5 { 0x001E } else if row == 6 { 0x003E } else if row == 7 { 0x007E }
    else if row == 8 { 0x00FE } else if row == 9 { 0x01FE } else if row == 10 { 0x003E }
    else if row == 11 { 0x0036 } else if row == 12 { 0x0062 } else if row == 13 { 0x0060 }
    else if row == 14 { 0x00C0 } else if row == 15 { 0x00C0 } else { 0 }
}

/// The outline and fill masks of row `row` of the arrow pointer.
fn cursor_masks(row: usize) -> (m: (u16, u16))
    ensures
        m.0 == cursor_outline(row as int),
        m.1 == cursor_fill(row as int),
{
    match row {
        0 => (0x0001, 0),
        1 => (0x0003, 0),
        2 => (0x0005, 0x0002),
        3 => (0x0009, 0x0006),
        4 => (0x0011, 0x000E),
        5 => (0x0021, 0x001E),
        6 => (0x0041, 0x003E),
        7 => (0x0081, 0x007E),
        8 => (0x0101, 0x00FE),
        9 => (0x0201, 0x01FE),
        10 => (0x07C1, 0x003E),
        11 => (0x0049, 0x0036),
        12 => (0x0095, 0x0062),
        13 => (0x0093, 0x0060),
        14 => (0x0121, 0x00C0),
        15 => (0x0120, 0x00C0),
        16 => (0x00C0, 0),
        _ => (0, 0),
    }
}

/// The software back buffer and the adapter it is presented on.
pub struct Framebuffer {
    pub width: usize,
    pub height: usize,
    /// Pixels row by row, `width * height` of them.
    pub backbuffer: Vec<u32>,
    pub bga: BgaDevice,
    /// The clipping rectangle `(x1, y1, x2, y2)`, ends exclusive.
    pub clip: Option<(isize, isize, isize, isize)>,
}

impl Framebuffer {
    /// The back buffer matches the mode, the mode matches the adapter, and a
    /// clipping rectangle never reaches past the screen.
    pub open spec fn wf(&self) -> bool {
        &&& self.bga.wf()
        &&& self.bga.width == self.width
        &&& self.bga.height == self.height
        &&& self.backbuffer@.len() == self.width * self.height
        &&& match self.clip {
            None => true,
            Some((x1, y1, x2, y2)) => 0 <= x1 && 0 <= y1 && x2 <= self.width && y2 <= self.height,
        }
    }

    /// Everything but the back buffer's pixels is unchanged from `other`.
    pub open spec fn same_frame(&self, other: &Framebuffer) -> bool {
        &&& self.width == other.width
        &&& self.height == other.height
        &&& self.clip == other.clip
        &&& self.bga == other.bga
        &&& self.backbuffer@.len() == other.backbuffer@.len()
    }

    /// `buf` after `fill_rect` with these arguments on this screen.
    pub open spec fn filled(&self, buf: Seq<u32>, x: int, y: int, w: int, h: int, color: u32) -> Seq<u32> {
        fill_pixels(buf, self.width as int, self.height as int, self.clip, x, y, w, h, color)
    }

    /// Whether pixel `col`, `row` can be drawn on now.
    pub open spec fn is_visible(&self, col: int, row: int) -> bool {
        visible(self.width as int, self.height as int, self.clip, col, row)
    }

    /// A framebuffer for the adapter, cleared to the desktop's bottom color,
    /// with no clipping.
    pub fn new(bga: BgaDevice) -> (fb: Framebuffer)
        requires
            bga.wf(),
        ensures
            fb.wf(),
            fb.width == bga.width,
            fb.height == bga.height,
            fb.clip.is_none(),
            fb.bga == bga,
            fb.backbuffer@ == Seq::new((bga.width * bga.height) as nat, |i: int| palette::DESKTOP_BOTTOM),
    {
        let size = bga.width * bga.height;
        let mut backbuffer: Vec<u32> = Vec::with_capacity(size);
        while backbuffer.len() < size
            invariant
                backbuffer@.len() <= size,
                forall|i: int| 0 <= i < backbuffer@.len() ==> backbuffer@[i] == palette::DESKTOP_BOTTOM,
            decreases size - backbuffer@.len(),
        {
            backbuffer.push(palette::DESKTOP_BOTTOM);
        }
        assert(backbuffer@ =~= Seq::new((bga.width * bga.height) as nat, |i: int| palette::DESKTOP_BOTTOM));
        Framebuffer { width: bga.width, height: bga.height, backbuffer, bga, clip: None }
    }

    /// Restricts drawing to the `w` by `h` rectangle at `x`, `y`, cut to the
    /// screen. The sizes are taken as signed numbers (`w as isize`, so a size
    /// past `isize::MAX` wraps to a negative one and the rectangle is empty).
    pub fn set_clip(&mut self, x: isize, y: isize, w: usize, h: usize)
        requires
            old(self).wf(),
            isize::MIN <= x + (w as isize) <= isize::MAX,
            isize::MIN <= y + (h as isize) <= isize::MAX,
        ensures
            final(self).wf(),
            final(self).width == old(self).width,
            final(self).height == old(self).height,
            final(self).bga == old(self).bga,
            final(self).backbuffer@ == old(self).backbuffer@,
            final(self).clip == Some((
                if x > 0 { x } else { 0isize },
                if y > 0 { y } else { 0isize },
                (if x + (w as isize) < old(self).width { x + (w as isize) } else { old(self).width as int }) as isize,
                (if y + (h as isize) < old(self).height { y + (h as isize) } else { old(self).height as int }) as isize,
            )),
    {
        let min_x = if x > 0 { x } else { 0isize };
        let min_y = if y > 0 { y } else { 0isize };
        let ex = x + w as isize;
        let ey = y + h as isize;
        let max_x = if ex < self.width as isize { ex } else { self.width as isize };
        let max_y = if ey < self.height as isize { ey } else { self.height as isize };
        self.clip = Some((min_x, min_y, max_x, max_y));
    }

    /// Lifts any clipping.
    pub fn clear_clip(&mut self)
        requires
            old(self).wf(),
        ensures
            final(self).wf(),
            final(self).width == old(self).width,
            final(self).height == old(self).height,
            final(self).bga == old(self).bga,
            final(self).backbuffer@ == old(self).backbuffer@,
            final(self).clip.is_none(),
    {
        self.clip = None;
    }

    /// Sets every pixel to `color` as it is (no compositing, no clipping).
    pub fn clear(&mut self, color: Color)
        requires
            old(self).wf(),
        ensures
            final(self).wf(),
            final(self).same_frame(old(self)),
            final(self).backbuffer@ == Seq::new(old(self).backbuffer@.len(), |i: int| color.raw),
    {
        let n = self.backbuffer.len();
        let mut i: usize = 0;
        while i < n
            invariant
                self.wf(),
                self.same_frame(old(self)),
                n == self.backbuffer@.len(),
                i <= n,
                forall|j: int| 0 <= j < n ==> #[trigger] self.backbuffer@[j]
                    == if j < i { color.raw } else { old(self).backbuffer@[j] },
            decreases n - i,
        {
            self.backbuffer.set(i, color.raw);
            i = i + 1;
        }
        assert(self.backbuffer@ =~= Seq::new(old(self).backbuffer@.len(), |i: int| color.raw));
    }

    /// The drawable bounds `(x1, y1, x2, y2)`: the clipping rectangle, or the
    /// whole screen.
    fn bounds(&self) -> (b: (isize, isize, isize, isize))
        requires
            self.wf(),
        ensures
            0 <= b.0,
            0 <= b.1,
            b.2 <= self.width,
            b.3 <= self.height,
            forall|col: int, row: int| #[trigger] self.is_visible(col, row)
                <==> (b.0 <= col < b.2 && b.1 <= row < b.3),
    {
        match self.clip {
            Some(c) => c,
            None => (0isize, 0isize, self.width as isize, self.height as isize),
        }
    }

    /// Composites `color` over the pixels of row `row` in columns `x1..x2`.
    fn blend_row(&mut self, row: usize, x1: usize, x2: usize, color: Color)
        requires
            old(self).wf(),
            row < old(self).height,
            x1 <= x2 <= old(self).width,
        ensures
            final(self).wf(),
            final(self).same_frame(old(self)),
            final(self).backbuffer@ == blend_span(old(self).backbuffer@, old(self).width as int,
                row as int, x1 as int, x2 as int, color.raw),
    {
        let w = self.width;
        let h = self.height;
        let mut col = x1;
        while col < x2
            invariant
                self.wf(),
                self.same_frame(old(self)),
                w == self.width,
                h == self.height,
                row < h,
                x1 <= col <= x2 <= w,
                self.backbuffer@ == blend_span(old(self).backbuffer@, w as int, row as int, x1 as int, col as int, color.raw),
            decreases x2 - col,
        {
            proof {
                lemma_pixel_index(row as int, col as int, w as int, h as int);
            }
            let idx = row * w + col;
            let bg = Color::from_raw(self.backbuffer[idx]);
            let v = bg.blend_over(color).raw;
            self.backbuffer.set(idx, v);
            proof {
                assert forall|i: int| 0 <= i < self.backbuffer@.len() implies #[trigger] self.backbuffer@[i]
                    == blend_span(old(self).backbuffer@, w as int, row as int, x1 as int, col + 1, color.raw)[i] by {
                    lemma_index_split(i, w as int, h as int);
                    if i != idx && i / (w as int) == row && i % (w as int) == col {
                        assert(i == row * w + col);
                    }
                }
                assert(self.backbuffer@ =~= blend_span(old(self).backbuffer@, w as int, row as int, x1 as int, col + 1, color.raw));
            }
            col = col + 1;
        }
    }

    /// Composites `color` over the pixels of rows `y1..y2` in columns `x1..x2`.
    fn blend_block(&mut self, x1: usize, y1: usize, x2: usize, y2: usize, color: Color)
        requires
            old(self).wf(),
            x1 <= x2 <= old(self).width,
            y1 <= y2 <= old(self).height,
        ensures
            final(self).wf(),
            final(self).same_frame(old(self)),
            final(self).backbuffer@ == Seq::new(old(self).backbuffer@.len(), |i: int|
                if y1 <= i / (old(self).width as int) < y2 && x1 <= i % (old(self).width as int) < x2 {
                    blend_over_spec(old(self).backbuffer@[i], color.raw)
                } else {
                    old(self).backbuffer@[i]
                }),
    {
        let w = self.width;
        let h = self.height;
        let ghost orig = self.backbuffer@;
        let mut row = y1;
        while row < y2
            invariant
                self.wf(),
                self.same_frame(old(self)),
                orig == old(self).backbuffer@,
                w == self.width,
                h == self.height,
                x1 <= x2 <= w,
                y1 <= row <= y2 <= h,
                self.backbuffer@ == Seq::new(orig.len(), |i: int|
                    if y1 <= i / (w as int) < row && x1 <= i % (w as int) < x2 {
                        blend_over_spec(orig[i], color.raw)
                    } else {
                        orig[i]
                    }),
            decreases y2 - row,
        {
            self.blend_row(row, x1, x2, color);
            assert(self.backbuffer@ =~= Seq::new(orig.len(), |i: int|
                if y1 <= i / (w as int) < row + 1 && x1 <= i % (w as int) < x2 {
                    blend_over_spec(orig[i], color.raw)
                } else {
                    orig[i]
                }));
            row = row + 1;
        }
    }

    /// Composites `color` over every visible pixel of the `w` by `h`
    /// rectangle at `x`, `y`. The sizes are taken as signed numbers (`w as
    /// isize`): a size past `isize::MAX` wraps to a negative one, and the
    /// rectangle is then empty.
    pub fn fill_rect(&mut self, x: isize, y: isize, w: usize, h: usize, color: Color)
        requires
            old(self).wf(),
            w != 0 && h != 0 ==> isize::MIN <= x + (w as isize) <= isize::MAX,
            w != 0 && h != 0 ==> isize::MIN <= y + (h as isize) <= isize::MAX,
        ensures
            final(self).wf(),
            final(self).same_frame(old(self)),
            final(self).backbuffer@ == old(self).filled(old(self).backbuffer@, x as int, y as int, signed_size(w),
                signed_size(h), color.raw),
    {
        if w == 0 || h == 0 || w > isize::MAX as usize || h > isize::MAX as usize {
            assert(self.backbuffer@ =~= old(self).filled(old(self).backbuffer@, x as int, y as int, signed_size(w),
                signed_size(h), color.raw));
            return;
        }
        let (bx1, by1, bx2, by2) = self.bounds();
        let ex = x + w as isize;
        let ey = y + h as isize;
        let x1 = if x > bx1 { x } else { bx1 };
        let y1 = if y > by1 { y } else { by1 };
        let cx = if ex < bx2 { ex } else { bx2 };
        let cy = if ey < by2 { ey } else { by2 };
        let x2 = if cx > bx1 { cx } else { bx1 };
        let y2 = if cy > by1 { cy } else { by1 };
        if x1 >= x2 || y1 >= y2 {
            assert forall|i: int| 0 <= i < self.backbuffer@.len() implies #[trigger] self.backbuffer@[i]
                == old(self).filled(old(self).backbuffer@, x as int, y as int, signed_size(w), signed_size(h), color.raw)[i] by {
                lemma_index_split(i, self.width as int, self.height as int);
                let col = i % (self.width as int);
                let row = i / (self.width as int);
                assert(old(self).is_visible(col, row) <==> (bx1 <= col < bx2 && by1 <= row < by2));
            }
            assert(self.backbuffer@ =~= old(self).filled(old(self).backbuffer@, x as int, y as int, signed_size(w), signed_size(h), color.raw));
            return;
        }
        let ghost wd = self.width as int;
        self.blend_block(x1 as usize, y1 as usize, x2 as usize, y2 as usize, color);
        assert forall|i: int| 0 <= i < self.backbuffer@.len() implies
            #[trigger] self.backbuffer@[i] == old(self).filled(old(self).backbuffer@, x as int, y as int, signed_size(w), signed_size(h), color.raw)[i] by {
            lemma_index_split(i, self.width as int, self.height as int);
            let col = i % wd;
            let row = i / wd;
            assert(old(self).is_visible(col, row) <==> (bx1 <= col < bx2 && by1 <= row < by2));
        }
        assert(self.backbuffer@ =~= old(self).filled(old(self).backbuffer@, x as int, y as int, signed_size(w), signed_size(h), color.raw));
    }

    /// Composites `color` over pixel `x`, `y` when it is visible.
    pub fn draw_pixel(&mut self, x: isize, y: isize, color: Color)
        requires
            old(self).wf(),
        ensures
            final(self).wf(),
            final(self).same_frame(old(self)),
            final(self).backbuffer@ == old(self).filled(old(self).backbuffer@, x as int, y as int, 1, 1, color.raw),
    {
        let ghost target = old(self).filled(old(self).backbuffer@, x as int, y as int, 1, 1, color.raw);
        if x < 0 || y < 0 || x >= self.width as isize || y >= self.height as isize {
            assert forall|i: int| 0 <= i < self.backbuffer@.len() implies #[trigger] self.backbuffer@[i] == target[i] by {
                lemma_index_split(i, self.width as int, self.height as int);
            }
            assert(self.backbuffer@ =~= target);
            return;
        }
        if let Some((min_x, min_y, max_x, max_y)) = self.clip {
            if x < min_x || y < min_y || x >= max_x || y >= max_y {
                assert forall|i: int| 0 <= i < self.backbuffer@.len() implies #[trigger] self.backbuffer@[i] == target[i] by {
                    lemma_index_split(i, self.width as int, self.height as int);
                }
                assert(self.backbuffer@ =~= target);
                return;
            }
        }
        let w = self.width;
        proof {
            lemma_pixel_index(y as int, x as int, w as int, self.height as int);
        }
        let idx = y as usize * w + x as usize;
        let alpha = color.a();
        if alpha == 255 {
            self.backbuffer.set(idx, color.raw);
        } else if alpha > 0 {
            let bg = Color::from_raw(self.backbuffer[idx]);
            let v = bg.blend_over(color).raw;
            self.backbuffer.set(idx, v);
        }
        assert forall|i: int| 0 <= i < self.backbuffer@.len() implies #[trigger] self.backbuffer@[i] == target[i] by {
            lemma_index_split(i, w as int, self.height as int);
            if i != idx && i / (w as int) == y && i % (w as int) == x {
                assert(i == y * w + x);
            }
        }
        assert(self.backbuffer@ =~= target);
    }

    /// `buf` after `draw_rect`: the one-pixel outline of the rectangle.
    pub open spec fn outlined(&self, buf: Seq<u32>, x: int, y: int, w: int, h: int, c: u32) -> Seq<u32> {
        if w == 0 || h == 0 {
            buf
        } else {
            let b1 = self.filled(buf, x, y, w, 1, c);
            let b2 = self.filled(b1, x, y + h - 1, w, 1, c);
            let b3 = self.filled(b2, x, y, 1, h, c);
            self.filled(b3, x + w - 1, y, 1, h, c)
        }
    }

    /// `buf` after a two-pixel bevel with outer top-left color `otl`, inner
    /// top-left `itl`, inner bottom-right `ibr` and outer bottom-right `obr`.
    pub open spec fn beveled(&self, buf: Seq<u32>, x: int, y: int, w: int, h: int, otl: u32, itl: u32, ibr: u32, obr: u32) -> Seq<u32> {
        if w < 2 || h < 2 {
            buf
        } else {
            let b1 = self.filled(buf, x, y, w, 1, otl);
            let b2 = self.filled(b1, x, y, 1, h, otl);
            let b3 = self.filled(b2, x + 1, y + 1, w - 2, 1, itl);
            let b4 = self.filled(b3, x + 1, y + 1, 1, h - 2, itl);
            let b5 = self.filled(b4, x + 1, y + h - 2, w - 2, 1, ibr);
            let b6 = self.filled(b5, x + w - 2, y + 1, 1, h - 2, ibr);
            let b7 = self.filled(b6, x, y + h - 1, w, 1, obr);
            self.filled(b7, x + w - 1, y, 1, h, obr)
        }
    }

    /// `buf` after a one-pixel panel with top-left color `tl` and bottom-right color `br`.
    pub open spec fn paneled(&self, buf: Seq<u32>, x: int, y: int, w: int, h: int, tl: u32, br: u32) -> Seq<u32> {
        if w == 0 || h == 0 {
            buf
        } else {
            let b1 = self.filled(buf, x, y, w, 1, tl);
            let b2 = self.filled(b1, x, y, 1, h, tl);
            let b3 = self.filled(b2, x, y + h - 1, w, 1, br);
            self.filled(b3, x + w - 1, y, 1, h, br)
        }
    }

    /// `buf` after `draw_button`.
    pub open spec fn buttoned(&self, buf: Seq<u32>, x: int, y: int, w: int, h: int, pressed: bool) -> Seq<u32> {
        let face = self.filled(buf, x, y, w, h, palette::RETRO_FACE);
        if pressed {
            let b1 = self.filled(face, x, y, w, 1, palette::RETRO_DARK_SHADOW);
            let b2 = self.filled(b1, x, y, 1, h, palette::RETRO_DARK_SHADOW);
            let b3 = self.filled(b2, x + 1, y + 1, sat_sub(w, 2), 1, palette::RETRO_SHADOW);
            let b4 = self.filled(b3, x + 1, y + 1, 1, sat_sub(h, 2), palette::RETRO_SHADOW);
            let b5 = self.filled(b4, x + 1, y + h - 1, sat_sub(w, 1), 1, palette::RETRO_HIGHLIGHT);
            self.filled(b5, x + w - 1, y + 1, 1, sat_sub(h, 1), palette::RETRO_HIGHLIGHT)
        } else {
            self.beveled(face, x, y, w, h, palette::RETRO_LIGHT, palette::RETRO_HIGHLIGHT,
                palette::RETRO_SHADOW, palette::RETRO_DARK_SHADOW)
        }
    }

    /// `buf` after `draw_groove`.
    pub open spec fn grooved(&self, buf: Seq<u32>, x: int, y: int, w: int, h: int) -> Seq<u32> {
        if w == 0 || h == 0 {
            buf
        } else if h <= 2 {
            let b1 = self.filled(buf, x, y, w, 1, palette::RETRO_SHADOW);
            self.filled(b1, x, y + 1, w, 1, palette::RETRO_LIGHT)
        } else if w <= 2 {
            let b1 = self.filled(buf, x, y, 1, h, palette::RETRO_SHADOW);
            self.filled(b1, x + 1, y, 1, h, palette::RETRO_LIGHT)
        } else {
            let b1 = self.outlined(buf, x, y, w, h, palette::RETRO_SHADOW);
            self.outlined(b1, x + 1, y + 1, w - 2, h - 2, palette::RETRO_LIGHT)
        }
    }

    /// Draws the one-pixel outline of the `w` by `h` rectangle at `x`, `y`:
    /// its top row, bottom row, left column and right column, with the sizes
    /// taken as signed numbers (`w as isize`, so a size past `isize::MAX`
    /// wraps to a negative one, as the edges are then placed).
    pub fn draw_rect(&mut self, x: isize, y: isize, w: usize, h: usize, color: Color)
        requires
            old(self).wf(),
            w != 0 && h != 0 ==> isize::MIN <= x + (w as isize) - 1 && x + (w as isize) <= isize::MAX,
            w != 0 && h != 0 ==> isize::MIN <= y + (h as isize) - 1 && y + (h as isize) <= isize::MAX,
            w != 0 && h != 0 ==> x + 1 <= isize::MAX && y + 1 <= isize::MAX,
        ensures
            final(self).wf(),
            final(self).same_frame(old(self)),
            final(self).backbuffer@ == old(self).outlined(old(self).backbuffer@, x as int, y as int, (w as isize) as int,
                (h as isize) as int, color.raw),
    {
        if w == 0 || h == 0 {
            return;
        }
        let ghost b0 = self.backbuffer@;
        let ghost f0 = *self;
        let ghost ws = (w as isize) as int;
        let ghost hs = (h as isize) as int;
        proof {
            assert(w <= isize::MAX ==> (w as isize) as int == w as int);
            if w > isize::MAX {
                lemma_wraps_negative(w);
            }
            if h > isize::MAX {
                lemma_wraps_negative(h);
            }
        }
        self.fill_rect(x, y, w, 1, color);
        proof {
            assert(self.backbuffer@ =~= f0.filled(b0, x as int, y as int, ws, 1, color.raw));
        }
        let ghost b1 = self.backbuffer@;
        self.fill_rect(x, y + h as isize - 1, w, 1, color);
        proof {
            assert(self.backbuffer@ =~= f0.filled(b1, x as int, y + hs - 1, ws, 1, color.raw));
        }
        let ghost b2 = self.backbuffer@;
        self.fill_rect(x, y, 1, h, color);
        proof {
            assert(self.backbuffer@ =~= f0.filled(b2, x as int, y as int, 1, hs, color.raw));
        }
        let ghost b3 = self.backbuffer@;
        self.fill_rect(x + w as isize - 1, y, 1, h, color);
        proof {
            assert(self.backbuffer@ =~= f0.filled(b3, x + ws - 1, y as int, 1, hs, color.raw));
        }
    }

    /// Draws a drop shadow `blur` pixels wide below and to the right of the
    /// `w` by `h` rectangle at `x`, `y`.
    pub fn draw_shadow(&mut self, x: isize, y: isize, w: usize, h: usize, blur: usize)
        requires
            old(self).wf(),
            w <= isize::MAX,
            h <= isize::MAX,
            blur <= isize::MAX,
            h + blur <= isize::MAX,
            x + 4 + w <= isize::MAX,
            x + w + blur <= isize::MAX,
            y + h + blur <= isize::MAX,
            y + 4 + h + blur <= isize::MAX,
        ensures
            final(self).wf(),
            final(self).same_frame(old(self)),
            final(self).backbuffer@ == old(self).filled(
                old(self).filled(old(self).backbuffer@, x + 4, y + h, w as int, blur as int, shadow_color()),
                x + w, y + 4, blur as int, h + blur, shadow_color()),
    {
        let shadow = Color::from_rgb(10, 14, 22);
        proof { assert(shadow.raw == shadow_color()); }
        self.fill_rect(x + 4, y + h as isize, w, blur, shadow);
        self.fill_rect(x + w as isize, y + 4, blur, h + blur, shadow);
    }

    fn draw_bevel(&mut self, x: isize, y: isize, w: usize, h: usize, otl: Color, itl: Color, ibr: Color, obr: Color)
        requires
            old(self).wf(),
            w >= 2 && h >= 2 ==> rect_fits(x as int, y as int, w as int, h as int),
        ensures
            final(self).wf(),
            final(self).same_frame(old(self)),
            final(self).backbuffer@ == old(self).beveled(old(self).backbuffer@, x as int, y as int, w as int, h as int,
                otl.raw, itl.raw, ibr.raw, obr.raw),
    {
        if w < 2 || h < 2 {
            return;
        }
        let iw = w as isize;
        let ih = h as isize;
        self.fill_rect(x, y, w, 1, otl);
        self.fill_rect(x, y, 1, h, otl);
        self.fill_rect(x + 1, y + 1, w - 2, 1, itl);
        self.fill_rect(x + 1, y + 1, 1, h - 2, itl);
        self.fill_rect(x + 1, y + ih - 2, w - 2, 1, ibr);
        self.fill_rect(x + iw - 2, y + 1, 1, h - 2, ibr);
        self.fill_rect(x, y + ih - 1, w, 1, obr);
        self.fill_rect(x + iw - 1, y, 1, h, obr);
    }

    /// Draws the classic two-pixel raised bevel (light top-left, dark bottom-right).
    pub fn draw_bevel_raised(&mut self, x: isize, y: isize, w: usize, h: usize)
        requires
            old(self).wf(),
            w >= 2 && h >= 2 ==> rect_fits(x as int, y as int, w as int, h as int),
        ensures
            final(self).wf(),
            final(self).same_frame(old(self)),
            final(self).backbuffer@ == old(self).beveled(old(self).backbuffer@, x as int, y as int, w as int, h as int,
                palette::RETRO_LIGHT, palette::RETRO_HIGHLIGHT, palette::RETRO_SHADOW, palette::RETRO_DARK_SHADOW),
    {
        self.draw_bevel(x, y, w, h, Color::from_raw(palette::RETRO_LIGHT), Color::from_raw(palette::RETRO_HIGHLIGHT),
            Color::from_raw(palette::RETRO_SHADOW), Color::from_raw(palette::RETRO_DARK_SHADOW));
    }

    /// Draws the classic two-pixel sunken bevel (dark top-left, light bottom-right).
    pub fn draw_bevel_sunken(&mut self, x: isize, y: isize, w: usize, h: usize)
        requires
            old(self).wf(),
            w >= 2 && h >= 2 ==> rect_fits(x as int, y as int, w as int, h as int),
        ensures
            final(self).wf(),
            final(self).same_frame(old(self)),
            final(self).backbuffer@ == old(self).beveled(old(self).backbuffer@, x as int, y as int, w as int, h as int,
                palette::RETRO_SHADOW, palette::RETRO_DARK_SHADOW, palette::RETRO_HIGHLIGHT, palette::RETRO_LIGHT),
    {
        self.draw_bevel(x, y, w, h, Color::from_raw(palette::RETRO_SHADOW), Color::from_raw(palette::RETRO_DARK_SHADOW),
            Color::from_raw(palette::RETRO_HIGHLIGHT), Color::from_raw(palette::RETRO_LIGHT));
    }

    fn draw_panel(&mut self, x: isize, y: isize, w: usize, h: usize, tl: Color, br: Color)
        requires
            old(self).wf(),
            w != 0 && h != 0 ==> rect_fits(x as int, y as int, w as int, h as int),
        ensures
            final(self).wf(),
            final(self).same_frame(old(self)),
            final(self).backbuffer@ == old(self).paneled(old(self).backbuffer@, x as int, y as int, w as int, h as int, tl.raw, br.raw),
    {
        if w == 0 || h == 0 {
            return;
        }
        let iw = w as isize;
        let ih = h as isize;
        self.fill_rect(x, y, w, 1, tl);
        self.fill_rect(x, y, 1, h, tl);
        self.fill_rect(x, y + ih - 1, w, 1, br);
        self.fill_rect(x + iw - 1, y, 1, h, br);
    }

    /// Draws a one-pixel sunken panel outline.
    pub fn draw_sunken_panel(&mut self, x: isize, y: isize, w: usize, h: usize)
        requires
            old(self).wf(),
            w != 0 && h != 0 ==> rect_fits(x as int, y as int, w as int, h as int),
        ensures
            final(self).wf(),
            final(self).same_frame(old(self)),
            final(self).backbuffer@ == old(self).paneled(old(self).backbuffer@, x as int, y as int, w as int, h as int,
                palette::RETRO_SHADOW, palette::RETRO_LIGHT),
    {
        self.draw_panel(x, y, w, h, Color::from_raw(palette::RETRO_SHADOW), Color::from_raw(palette::RETRO_LIGHT));
    }

    /// Draws a one-pixel raised panel outline.
    pub fn draw_raised_panel(&mut self, x: isize, y: isize, w: usize, h: usize)
        requires
            old(self).wf(),
            w != 0 && h != 0 ==> rect_fits(x as int, y as int, w as int, h as int),
        ensures
            final(self).wf(),
            final(self).same_frame(old(self)),
            final(self).backbuffer@ == old(self).paneled(old(self).backbuffer@, x as int, y as int, w as int, h as int,
                palette::RETRO_LIGHT, palette::RETRO_SHADOW),
    {
        self.draw_panel(x, y, w, h, Color::from_raw(palette::RETRO_LIGHT), Color::from_raw(palette::RETRO_SHADOW));
    }

    /// Draws a gray 3D button, raised or pressed.
    pub fn draw_button(&mut self, x: isize, y: isize, w: usize, h: usize, pressed: bool)
        requires
            old(self).wf(),
            w != 0 && h != 0 ==> rect_fits(x as int, y as int, w as int, h as int),
            w >= 2 && h >= 2 ==> rect_fits(x as int, y as int, w as int, h as int),
            pressed ==> rect_fits(x as int, y as int, w as int, h as int),
            pressed ==> x + 2 <= isize::MAX && y + 2 <= isize::MAX,
            pressed ==> x + w >= isize::MIN + 1 && y + h >= isize::MIN + 1,
        ensures
            final(self).wf(),
            final(self).same_frame(old(self)),
            final(self).backbuffer@ == old(self).buttoned(old(self).backbuffer@, x as int, y as int, w as int, h as int, pressed),
    {
        self.fill_rect(x, y, w, h, Color::from_raw(palette::RETRO_FACE));
        if pressed {
            let iw = w as isize;
            let ih = h as isize;
            let dark = Color::from_raw(palette::RETRO_DARK_SHADOW);
            let shadow = Color::from_raw(palette::RETRO_SHADOW);
            let light = Color::from_raw(palette::RETRO_HIGHLIGHT);
            self.fill_rect(x, y, w, 1, dark);
            self.fill_rect(x, y, 1, h, dark);
            self.fill_rect(x + 1, y + 1, w.saturating_sub(2), 1, shadow);
            self.fill_rect(x + 1, y + 1, 1, h.saturating_sub(2), shadow);
            self.fill_rect(x + 1, y + ih - 1, w.saturating_sub(1), 1, light);
            self.fill_rect(x + iw - 1, y + 1, 1, h.saturating_sub(1), light);
        } else {
            self.draw_bevel_raised(x, y, w, h);
        }
    }

    /// Draws an etched divider: a horizontal line pair, a vertical line
    /// pair, or an etched box, depending on the shape.
    pub fn draw_groove(&mut self, x: isize, y: isize, w: usize, h: usize)
        requires
            old(self).wf(),
            w != 0 && h != 0 ==> rect_fits(x as int, y as int, w as int, h as int),
            w != 0 && h != 0 && h <= 2 ==> y + 2 <= isize::MAX,
            w != 0 && h > 2 && w <= 2 ==> x + 2 <= isize::MAX,
        ensures
            final(self).wf(),
            final(self).same_frame(old(self)),
            final(self).backbuffer@ == old(self).grooved(old(self).backbuffer@, x as int, y as int, w as int, h as int),
    {
        if w == 0 || h == 0 {
            return;
        }
        let shadow = Color::from_raw(palette::RETRO_SHADOW);
        let light = Color::from_raw(palette::RETRO_LIGHT);
        if h <= 2 {
            self.fill_rect(x, y, w, 1, shadow);
            self.fill_rect(x, y + 1, w, 1, light);
        } else if w <= 2 {
            self.fill_rect(x, y, 1, h, shadow);
            self.fill_rect(x + 1, y, 1, h, light);
        } else {
            self.draw_rect(x, y, w, h, shadow);
            self.draw_rect(x + 1, y + 1, w - 2, h - 2, light);
        }
    }

    /// `buf` after `draw_gradient_v`: each visible pixel of the rectangle gets
    /// the color interpolated from `top` to `bottom` by its row, composited over it.
    pub open spec fn gradient_v_pixels(&self, buf: Seq<u32>, x: int, y: int, w: int, h: int, top: u32, bottom: u32) -> Seq<u32> {
        Seq::new(buf.len(), |i: int| {
            let col = i % (self.width as int);
            let row = i / (self.width as int);
            if w != 0 && h != 0 && in_rect(x, y, w, h, col, row) && self.is_visible(col, row) {
                blend_over_spec(buf[i], crate::color::lerp_spec(top, bottom, (((row - y) * 256) / h) as u16))
            } else {
                buf[i]
            }
        })
    }

    /// Fills the rectangle with a vertical gradient from `top_color` (first
    /// row) towards `bottom_color`.
    pub fn draw_gradient_v(&mut self, x: isize, y: isize, w: usize, h: usize, top_color: Color, bottom_color: Color)
        requires
            old(self).wf(),
            w != 0 && h != 0 ==> rect_fits(x as int, y as int, w as int, h as int),
            w != 0 && h != 0 ==> h * 256 <= usize::MAX,
        ensures
            final(self).wf(),
            final(self).same_frame(old(self)),
            final(self).backbuffer@ == old(self).gradient_v_pixels(old(self).backbuffer@, x as int, y as int, w as int, h as int,
                top_color.raw, bottom_color.raw),
    {
        let ghost orig = self.backbuffer@;
        let ghost wd = self.width as int;
        if w == 0 || h == 0 {
            assert(self.backbuffer@ =~= old(self).gradient_v_pixels(orig, x as int, y as int, w as int, h as int,
                top_color.raw, bottom_color.raw));
            return;
        }
        let y1 = if y > 0 { y } else { 0isize };
        let ey = y + h as isize;
        let y2 = if ey < self.height as isize { ey } else { self.height as isize };
        let mut curr_y = y1;
        while curr_y < y2
            invariant
                self.wf(),
                self.same_frame(old(self)),
                orig == old(self).backbuffer@,
                wd == self.width as int,
                w != 0 && h != 0,
                rect_fits(x as int, y as int, w as int, h as int),
                h * 256 <= usize::MAX,
                y1 == (if y > 0 { y } else { 0isize }),
                y2 <= self.height,
                y2 <= y + h,
                y1 <= curr_y,
                curr_y <= y2 || y1 >= y2,
                self.backbuffer@ == Seq::new(orig.len(), |i: int| {
                    let col = i % wd;
                    let row = i / wd;
                    if row < curr_y && in_rect(x as int, y as int, w as int, h as int, col, row)
                        && old(self).is_visible(col, row) {
                        blend_over_spec(orig[i], crate::color::lerp_spec(top_color.raw, bottom_color.raw, (((row - y) * 256) / (h as int)) as u16))
                    } else {
                        orig[i]
                    }
                }),
            decreases y2 - curr_y,
        {
            let row_offset = (curr_y - y) as usize;
            assert(row_offset * 256 <= usize::MAX) by (nonlinear_arith)
                requires row_offset < h, h * 256 <= usize::MAX;
            let t = ((row_offset * 256) / h) as u16;
            let row_color = top_color.lerp(bottom_color, t);
            let ghost before = self.backbuffer@;
            self.fill_rect(x, curr_y, w, 1, row_color);
            assert forall|i: int| 0 <= i < self.backbuffer@.len() implies #[trigger] self.backbuffer@[i] == ({
                    let col = i % wd;
                    let row = i / wd;
                    if row < curr_y + 1 && in_rect(x as int, y as int, w as int, h as int, col, row)
                        && old(self).is_visible(col, row) {
                        blend_over_spec(orig[i], crate::color::lerp_spec(top_color.raw, bottom_color.raw, (((row - y) * 256) / (h as int)) as u16))
                    } else {
                        orig[i]
                    }
                }) by {
                lemma_index_split(i, wd, self.height as int);
            }
            assert(self.backbuffer@ =~= Seq::new(orig.len(), |i: int| {
                    let col = i % wd;
                    let row = i / wd;
                    if row < curr_y + 1 && in_rect(x as int, y as int, w as int, h as int, col, row)
                        && old(self).is_visible(col, row) {
                        blend_over_spec(orig[i], crate::color::lerp_spec(top_color.raw, bottom_color.raw, (((row - y) * 256) / (h as int)) as u16))
                    } else {
                        orig[i]
                    }
                }));
            curr_y = curr_y + 1;
        }
        assert forall|i: int| 0 <= i < self.backbuffer@.len() implies #[trigger] self.backbuffer@[i]
            == old(self).gradient_v_pixels(orig, x as int, y as int, w as int, h as int, top_color.raw, bottom_color.raw)[i] by {
            lemma_index_split(i, wd, self.height as int);
        }
        assert(self.backbuffer@ =~= old(self).gradient_v_pixels(orig, x as int, y as int, w as int, h as int,
            top_color.raw, bottom_color.raw));
    }

    /// The width of the gradient `draw_gradient_h` draws for a requested width `w`.
    pub open spec fn gradient_h_width(w: int) -> int {
        if w < 1024 { w } else { 1024 }
    }

    /// `buf` after `draw_gradient_h`: each visible pixel of the first 1024
    /// columns of the rectangle is set (not composited) to the color
    /// interpolated from `left` to `right` by its column.
    pub open spec fn gradient_h_pixels(&self, buf: Seq<u32>, x: int, y: int, w: int, h: int, left: u32, right: u32) -> Seq<u32> {
        let cw = Self::gradient_h_width(w);
        Seq::new(buf.len(), |i: int| {
            let col = i % (self.width as int);
            let row = i / (self.width as int);
            if w != 0 && h != 0 && in_rect(x, y, cw, h, col, row) && self.is_visible(col, row) {
                crate::color::lerp_spec(left, right, (((col - x) * 256) / cw) as u16)
            } else {
                buf[i]
            }
        })
    }

    /// Writes `values[k]` to pixel `x + k` of row `row` for every `k` whose
    /// column lies in `bx1..bx2`.
    fn write_row_values(&mut self, row: usize, x: isize, values: &Vec<u32>, bx1: isize, bx2: isize)
        requires
            old(self).wf(),
            row < old(self).height,
            0 <= bx1,
            bx2 <= old(self).width,
            x + values@.len() <= isize::MAX,
            values@.len() <= isize::MAX,
        ensures
            final(self).wf(),
            final(self).same_frame(old(self)),
            final(self).backbuffer@ == Seq::new(old(self).backbuffer@.len(), |i: int| {
                let col = i % (old(self).width as int);
                if i / (old(self).width as int) == row && x <= col < x + values@.len() && bx1 <= col < bx2 {
                    values@[col - x]
                } else {
                    old(self).backbuffer@[i]
                }
            }),
    {
        let w = self.width;
        let h = self.height;
        let n = values.len();
        let mut k: usize = 0;
        while k < n
            invariant
                self.wf(),
                self.same_frame(old(self)),
                w == self.width,
                h == self.height,
                row < h,
                0 <= bx1,
                bx2 <= w,
                n == values@.len(),
                n <= isize::MAX,
                x + n <= isize::MAX,
                k <= n,
                self.backbuffer@ == Seq::new(old(self).backbuffer@.len(), |i: int| {
                    let col = i % (w as int);
                    if i / (w as int) == row && x <= col < x + k && bx1 <= col < bx2 {
                        values@[col - x]
                    } else {
                        old(self).backbuffer@[i]
                    }
                }),
            decreases n - k,
        {
            let px = x + k as isize;
            if px >= bx1 && px < bx2 {
                proof {
                    lemma_pixel_index(row as int, px as int, w as int, h as int);
                }
                let idx = row * w + px as usize;
                let ghost before = self.backbuffer@;
                self.backbuffer.set(idx, values[k]);
                assert forall|i: int| 0 <= i < self.backbuffer@.len() implies #[trigger] self.backbuffer@[i] == ({
                    let col = i % (w as int);
                    if i / (w as int) == row && x <= col < x + k + 1 && bx1 <= col < bx2 {
                        values@[col - x]
                    } else {
                        old(self).backbuffer@[i]
                    }
                }) by {
                    lemma_index_split(i, w as int, h as int);
                    if i != idx {
                        if i / (w as int) == row && i % (w as int) == px {
                            assert(i == row * w + px);
                        }
                        assert(self.backbuffer@[i] == before[i]);
                    } else {
                        assert(i % (w as int) == px);
                        assert(i / (w as int) == row);
                        assert(values@[px - x] == values@[k as int]);
                    }
                }
            }
            assert(self.backbuffer@ =~= Seq::new(old(self).backbuffer@.len(), |i: int| {
                let col = i % (w as int);
                if i / (w as int) == row && x <= col < x + k + 1 && bx1 <= col < bx2 {
                    values@[col - x]
                } else {
                    old(self).backbuffer@[i]
                }
            }));
            k = k + 1;
        }
    }

    /// Fills (without compositing) up to 1024 columns of the rectangle with a
    /// horizontal gradient from `left_color` (first column) towards `right_color`.
    pub fn draw_gradient_h(&mut self, x: isize, y: isize, w: usize, h: usize, left_color: Color, right_color: Color)
        requires
            old(self).wf(),
            w != 0 && h != 0 ==> h <= isize::MAX && y + h <= isize::MAX,
            w != 0 && h != 0 ==> x + Self::gradient_h_width(w as int) <= isize::MAX,
        ensures
            final(self).wf(),
            final(self).same_frame(old(self)),
            final(self).backbuffer@ == old(self).gradient_h_pixels(old(self).backbuffer@, x as int, y as int, w as int, h as int,
                left_color.raw, right_color.raw),
    {
        let ghost orig = self.backbuffer@;
        let ghost wd = self.width as int;
        if w == 0 || h == 0 {
            assert(self.backbuffer@ =~= old(self).gradient_h_pixels(orig, x as int, y as int, w as int, h as int,
                left_color.raw, right_color.raw));
            return;
        }
        let clamped_w = if w < 1024 { w } else { 1024 };
        let mut row_buf: Vec<u32> = Vec::new();
        let mut col: usize = 0;
        while col < clamped_w
            invariant
                clamped_w == Self::gradient_h_width(w as int),
                1 <= clamped_w <= 1024,
                col <= clamped_w,
                row_buf@.len() == col,
                forall|k: int| 0 <= k < col ==> #[trigger] row_buf@[k]
                    == crate::color::lerp_spec(left_color.raw, right_color.raw, ((k * 256) / (clamped_w as int)) as u16),
            decreases clamped_w - col,
        {
            let t = ((col * 256) / clamped_w) as u16;
            row_buf.push(left_color.lerp(right_color, t).raw);
            col = col + 1;
        }
        let (bx1, by1, bx2, by2) = self.bounds();
        let ey = y + h as isize;
        let y1 = if y > by1 { y } else { by1 };
        let cy = if ey < by2 { ey } else { by2 };
        let y2 = if cy > by1 { cy } else { by1 };
        let mut curr_y = y1;
        while curr_y < y2
            invariant
                self.wf(),
                self.same_frame(old(self)),
                orig == old(self).backbuffer@,
                wd == self.width as int,
                w != 0 && h != 0,
                clamped_w == Self::gradient_h_width(w as int),
                1 <= clamped_w <= 1024,
                row_buf@.len() == clamped_w,
                forall|k: int| 0 <= k < clamped_w ==> #[trigger] row_buf@[k]
                    == crate::color::lerp_spec(left_color.raw, right_color.raw, ((k * 256) / (clamped_w as int)) as u16),
                x + clamped_w <= isize::MAX,
                0 <= bx1, 0 <= by1, bx2 <= self.width, by2 <= self.height,
                forall|c: int, r: int| #[trigger] old(self).is_visible(c, r) <==> (bx1 <= c < bx2 && by1 <= r < by2),
                y1 == (if y > by1 { y } else { by1 }),
                y2 == (if (if y + h < by2 { y + h } else { by2 as int }) > by1 { if y + h < by2 { y + h } else { by2 as int } } else { by1 as int }),
                y1 <= curr_y,
                curr_y <= y2 || y1 >= y2,
                self.backbuffer@ == Seq::new(orig.len(), |i: int| {
                    let col = i % wd;
                    let row = i / wd;
                    if row < curr_y && in_rect(x as int, y as int, clamped_w as int, h as int, col, row)
                        && old(self).is_visible(col, row) {
                        crate::color::lerp_spec(left_color.raw, right_color.raw, (((col - x) * 256) / (clamped_w as int)) as u16)
                    } else {
                        orig[i]
                    }
                }),
            decreases y2 - curr_y,
        {
            self.write_row_values(curr_y as usize, x, &row_buf, bx1, bx2);
            assert forall|i: int| 0 <= i < self.backbuffer@.len() implies #[trigger] self.backbuffer@[i] == ({
                    let col = i % wd;
                    let row = i / wd;
                    if row < curr_y + 1 && in_rect(x as int, y as int, clamped_w as int, h as int, col, row)
                        && old(self).is_visible(col, row) {
                        crate::color::lerp_spec(left_color.raw, right_color.raw, (((col - x) * 256) / (clamped_w as int)) as u16)
                    } else {
                        orig[i]
                    }
                }) by {
                lemma_index_split(i, wd, self.height as int);
                let c = i % wd;
                let r = i / wd;
                assert(old(self).is_visible(c, r) <==> (bx1 <= c < bx2 && by1 <= r < by2));
            }
            assert(self.backbuffer@ =~= Seq::new(orig.len(), |i: int| {
                    let col = i % wd;
                    let row = i / wd;
                    if row < curr_y + 1 && in_rect(x as int, y as int, clamped_w as int, h as int, col, row)
                        && old(self).is_visible(col, row) {
                        crate::color::lerp_spec(left_color.raw, right_color.raw, (((col - x) * 256) / (clamped_w as int)) as u16)
                    } else {
                        orig[i]
                    }
                }));
            curr_y = curr_y + 1;
        }
        assert forall|i: int| 0 <= i < self.backbuffer@.len() implies #[trigger] self.backbuffer@[i]
            == old(self).gradient_h_pixels(orig, x as int, y as int, w as int, h as int, left_color.raw, right_color.raw)[i] by {
            lemma_index_split(i, wd, self.height as int);
            let c = i % wd;
            let r = i / wd;
            assert(old(self).is_visible(c, r) <==> (bx1 <= c < bx2 && by1 <= r < by2));
        }
        assert(self.backbuffer@ =~= old(self).gradient_h_pixels(orig, x as int, y as int, w as int, h as int,
            left_color.raw, right_color.raw));
    }

    /// Whether `draw_char` at `x`, `y` takes its direct path: no clipping and
    /// the whole 8x8 cell on screen. On that path glyph pixels are written as
    /// they are; otherwise they are composited.
    pub open spec fn char_fast(&self, x: int, y: int) -> bool {
        self.clip.is_none() && x >= 0 && x + 8 <= self.width && y >= 0 && y + 8 <= self.height
    }

    /// `buf` after `draw_char(x, y, c, color)`: the set glyph pixels of the
    /// 8x8 cell at `x`, `y` that are visible get `color`.
    pub open spec fn char_pixels(&self, buf: Seq<u32>, x: int, y: int, c: char, color: u32) -> Seq<u32> {
        Seq::new(buf.len(), |i: int| {
            let col = i % (self.width as int);
            let row = i / (self.width as int);
            if in_rect(x, y, 8, 8, col, row) && crate::font::glyph_bit(crate::font::glyph_of(c), row - y, col - x)
                && self.is_visible(col, row) {
                if self.char_fast(x, y) { color } else { blend_over_spec(buf[i], color) }
            } else {
                buf[i]
            }
        })
    }

    /// The pixels `char_pixels` describes, restricted to the first `k`
    /// glyph cells in reading order.
    pub open spec fn char_pixels_upto(&self, buf: Seq<u32>, x: int, y: int, c: char, color: u32, k: int) -> Seq<u32> {
        Seq::new(buf.len(), |i: int| {
            let col = i % (self.width as int);
            let row = i / (self.width as int);
            if in_rect(x, y, 8, 8, col, row) && (row - y) * 8 + (col - x) < k
                && crate::font::glyph_bit(crate::font::glyph_of(c), row - y, col - x) && self.is_visible(col, row) {
                if self.char_fast(x, y) { color } else { blend_over_spec(buf[i], color) }
            } else {
                buf[i]
            }
        })
    }

    /// Draws character `c` in `color` with its 8x8 cell's top-left corner at `x`, `y`.
    pub fn draw_char(&mut self, x: isize, y: isize, c: char, color: Color)
        requires
            old(self).wf(),
            x + 7 <= isize::MAX,
            y + 7 <= isize::MAX,
            old(self).clip.is_none() && x >= 0 ==> x + 8 <= isize::MAX,
            old(self).clip.is_none() && x >= 0 && y >= 0 ==> y + 8 <= isize::MAX,
        ensures
            final(self).wf(),
            final(self).same_frame(old(self)),
            final(self).backbuffer@ == old(self).char_pixels(old(self).backbuffer@, x as int, y as int, c, color.raw),
    {
        let ghost orig = self.backbuffer@;
        let ghost wd = self.width as int;
        let w = self.width;
        let fast = self.clip.is_none() && x >= 0 && x + 8 <= self.width as isize && y >= 0
            && y + 8 <= self.height as isize;
        let glyph = crate::font::get_glyph(c);
        let mut k: usize = 0;
        assert(self.backbuffer@ =~= old(self).char_pixels_upto(orig, x as int, y as int, c, color.raw, 0));
        while k < 64
            invariant
                self.wf(),
                self.same_frame(old(self)),
                orig == old(self).backbuffer@,
                w == self.width,
                wd == w as int,
                fast == old(self).char_fast(x as int, y as int),
                glyph@ == crate::font::glyph_of(c),
                glyph@.len() == 8,
                x + 7 <= isize::MAX,
                y + 7 <= isize::MAX,
                k <= 64,
                self.backbuffer@ == old(self).char_pixels_upto(orig, x as int, y as int, c, color.raw, k as int),
            decreases 64 - k,
        {
            let row = k / 8;
            let col = k % 8;
            let px = x + col as isize;
            let py = y + row as isize;
            let ghost before = self.backbuffer@;
            let ghost target = old(self).char_pixels_upto(orig, x as int, y as int, c, color.raw, k + 1);
            proof {
                assert(row * 8 + col == k);
            }
            if crate::font::row_has_pixel(glyph[row], col) {
                if fast {
                    proof {
                        lemma_pixel_index(py as int, px as int, w as int, self.height as int);
                    }
                    let idx = py as usize * w + px as usize;
                    self.backbuffer.set(idx, color.raw);
                    assert forall|i: int| 0 <= i < self.backbuffer@.len() implies #[trigger] self.backbuffer@[i] == target[i] by {
                        lemma_index_split(i, wd, self.height as int);
                        let cc = i % wd;
                        let rr = i / wd;
                        if in_rect(x as int, y as int, 8, 8, cc, rr) {
                            lemma_pixel_index(rr - y, cc - x, 8, 8);
                        }
                        if i != idx && rr == py && cc == px {
                            assert(i == py * w + px);
                        }
                    }
                } else {
                    self.draw_pixel(px, py, color);
                    assert forall|i: int| 0 <= i < self.backbuffer@.len() implies #[trigger] self.backbuffer@[i] == target[i] by {
                        lemma_index_split(i, wd, self.height as int);
                        let cc = i % wd;
                        let rr = i / wd;
                        if in_rect(x as int, y as int, 8, 8, cc, rr) {
                            lemma_pixel_index(rr - y, cc - x, 8, 8);
                        }
                    }
                }
            } else {
                assert forall|i: int| 0 <= i < self.backbuffer@.len() implies #[trigger] self.backbuffer@[i] == target[i] by {
                    lemma_index_split(i, wd, self.height as int);
                    let cc = i % wd;
                    let rr = i / wd;
                    if in_rect(x as int, y as int, 8, 8, cc, rr) {
                        lemma_pixel_index(rr - y, cc - x, 8, 8);
                    }
                }
            }
            assert(self.backbuffer@ =~= target);
            k = k + 1;
        }
        assert(self.backbuffer@ =~= old(self).char_pixels(orig, x as int, y as int, c, color.raw)) by {
            assert forall|i: int| 0 <= i < self.backbuffer@.len() implies #[trigger] self.backbuffer@[i]
                == old(self).char_pixels(orig, x as int, y as int, c, color.raw)[i] by {
                lemma_index_split(i, wd, self.height as int);
                let cc = i % wd;
                let rr = i / wd;
                if in_rect(x as int, y as int, 8, 8, cc, rr) {
                    assert((rr - y) * 8 + (cc - x) < 64) by (nonlinear_arith)
                        requires 0 <= rr - y < 8, 0 <= cc - x < 8;
                }
            }
        }
    }

    /// `buf` after filling, in reading order, the `scale` by `scale` square
    /// of each of the first `k` glyph cells of `c` that is set.
    pub open spec fn char_scaled_upto(&self, buf: Seq<u32>, x: int, y: int, c: char, scale: int, color: u32, k: nat) -> Seq<u32>
        decreases k,
    {
        if k == 0 {
            buf
        } else {
            let prev = self.char_scaled_upto(buf, x, y, c, scale, color, (k - 1) as nat);
            let row = (k - 1) / 8;
            let col = (k - 1) % 8;
            if crate::font::glyph_bit(crate::font::glyph_of(c), row, col) {
                self.filled(prev, x + col * scale, y + row * scale, scale, scale, color)
            } else {
                prev
            }
        }
    }

    /// Draws character `c` magnified `scale` times: each set glyph pixel
    /// becomes a `scale` by `scale` square, filled in reading order.
    pub fn draw_char_scaled(&mut self, x: isize, y: isize, c: char, scale: usize, color: Color)
        requires
            old(self).wf(),
            8 * scale <= isize::MAX,
            x + 8 * scale <= isize::MAX,
            y + 8 * scale <= isize::MAX,
        ensures
            final(self).wf(),
            final(self).same_frame(old(self)),
            final(self).backbuffer@ == old(self).char_scaled_upto(old(self).backbuffer@, x as int, y as int, c, scale as int, color.raw, 64),
    {
        let ghost orig = self.backbuffer@;
        let glyph = crate::font::get_glyph(c);
        let mut k: usize = 0;
        while k < 64
            invariant
                self.wf(),
                self.same_frame(old(self)),
                orig == old(self).backbuffer@,
                glyph@ == crate::font::glyph_of(c),
                glyph@.len() == 8,
                8 * scale <= isize::MAX,
                x + 8 * scale <= isize::MAX,
                y + 8 * scale <= isize::MAX,
                k <= 64,
                self.backbuffer@ == old(self).char_scaled_upto(orig, x as int, y as int, c, scale as int, color.raw, k as nat),
            decreases 64 - k,
        {
            let row = k / 8;
            let col = k % 8;
            assert(row * scale <= 7 * scale && col * scale <= 7 * scale) by (nonlinear_arith)
                requires row < 8, col < 8;
            if crate::font::row_has_pixel(glyph[row], col) {
                let px = x + (col * scale) as isize;
                let py = y + (row * scale) as isize;
                self.fill_rect(px, py, scale, scale, color);
            }
            k = k + 1;
        }
    }

    /// The characters of `text` before its first line break.
    pub open spec fn first_line(text: Seq<char>) -> Seq<char>
        decreases text.len(),
    {
        if text.len() == 0 || text[0] == '\n' {
            Seq::empty()
        } else {
            seq![text[0]] + Self::first_line(text.drop_first())
        }
    }

    /// `buf` after drawing the characters of `text` one 8-pixel cell apart
    /// from `x`, stopping at the first line break.
    pub open spec fn text_pixels(&self, buf: Seq<u32>, x: int, y: int, text: Seq<char>, color: u32) -> Seq<u32>
        decreases text.len(),
    {
        if text.len() == 0 || text[0] == '\n' {
            buf
        } else {
            self.text_pixels(self.char_pixels(buf, x, y, text[0], color), x + 8, y, text.drop_first(), color)
        }
    }

    /// `buf` after drawing the characters of `text` magnified `scale` times,
    /// `8 * scale` pixels apart from `x`, stopping at the first line break.
    pub open spec fn text_scaled_pixels(&self, buf: Seq<u32>, x: int, y: int, text: Seq<char>, scale: int, color: u32) -> Seq<u32>
        decreases text.len(),
    {
        if text.len() == 0 || text[0] == '\n' {
            buf
        } else {
            self.text_scaled_pixels(self.char_scaled_upto(buf, x, y, text[0], scale, color, 64),
                x + 8 * scale, y, text.drop_first(), scale, color)
        }
    }

    /// Draws `text` left to right from `x`, one character per 8-pixel cell,
    /// up to its first line break.
    pub fn draw_string(&mut self, x: isize, y: isize, text: &str, color: Color)
        requires
            old(self).wf(),
            x + 8 * (Self::first_line(text@).len() + 1) <= isize::MAX,
            y + 8 <= isize::MAX,
        ensures
            final(self).wf(),
            final(self).same_frame(old(self)),
            final(self).backbuffer@ == old(self).text_pixels(old(self).backbuffer@, x as int, y as int, text@, color.raw),
    {
        let ghost orig = self.backbuffer@;
        let ghost target = old(self).text_pixels(orig, x as int, y as int, text@, color.raw);
        let mut cur_x = x;
        let mut chars = text.chars();
        let ghost mut k: int = 0;
        proof {
            lemma_first_line_prefix(text@, 0);
            assert(text@.skip(0) =~= text@);
        }
        loop
            invariant_except_break
                chars.remaining() == text@.skip(k),
            invariant
                self.wf(),
                self.same_frame(old(self)),
                0 <= k <= text@.len(),
                cur_x == x + 8 * k,
                x + 8 * (Self::first_line(text@).len() + 1) <= isize::MAX,
                y + 8 <= isize::MAX,
                Self::first_line(text@).len() >= k,
                Self::first_line(text@.skip(k)).len() == Self::first_line(text@).len() - k,
                old(self).text_pixels(self.backbuffer@, cur_x as int, y as int, text@.skip(k), color.raw) == target,
            ensures
                self.backbuffer@ == target,
            decreases text@.len() - k,
        {
            let ghost rest = text@.skip(k);
            match chars.next() {
                None => {
                    assert(rest.len() == 0);
                    break;
                },
                Some(c) => {
                    assert(rest.len() > 0 && rest[0] == c);
                    if c == '\n' {
                        break;
                    }
                    assert(rest.drop_first() =~= text@.skip(k + 1));
                    let ghost before = self.backbuffer@;
                    self.draw_char(cur_x, y, c, color);
                    assert(self.backbuffer@ =~= old(self).char_pixels(before, cur_x as int, y as int, c, color.raw));
                    assert(old(self).text_pixels(before, cur_x as int, y as int, rest, color.raw)
                        == old(self).text_pixels(self.backbuffer@, cur_x + 8, y as int, text@.skip(k + 1), color.raw));
                    cur_x = cur_x + 8;
                    proof {
                        k = k + 1;
                    }
                },
            }
        }
    }

    /// Draws `text` magnified `scale` times, one character per `8 * scale`
    /// pixels, up to its first line break.
    pub fn draw_string_scaled(&mut self, x: isize, y: isize, text: &str, scale: usize, color: Color)
        requires
            old(self).wf(),
            8 * scale <= isize::MAX,
            x + 8 * scale * (Self::first_line(text@).len() + 1) <= isize::MAX,
            y + 8 * scale <= isize::MAX,
        ensures
            final(self).wf(),
            final(self).same_frame(old(self)),
            final(self).backbuffer@ == old(self).text_scaled_pixels(old(self).backbuffer@, x as int, y as int, text@,
                scale as int, color.raw),
    {
        let ghost orig = self.backbuffer@;
        let ghost target = old(self).text_scaled_pixels(orig, x as int, y as int, text@, scale as int, color.raw);
        let step = 8 * scale;
        let mut cur_x = x;
        let mut chars = text.chars();
        let ghost mut k: int = 0;
        proof {
            lemma_first_line_prefix(text@, 0);
            assert(text@.skip(0) =~= text@);
        }
        loop
            invariant_except_break
                chars.remaining() == text@.skip(k),
            invariant
                self.wf(),
                self.same_frame(old(self)),
                step == 8 * scale,
                8 * scale <= isize::MAX,
                0 <= k <= text@.len(),
                cur_x == x + step * k,
                x + 8 * scale * (Self::first_line(text@).len() + 1) <= isize::MAX,
                y + 8 * scale <= isize::MAX,
                Self::first_line(text@).len() >= k,
                Self::first_line(text@.skip(k)).len() == Self::first_line(text@).len() - k,
                old(self).text_scaled_pixels(self.backbuffer@, cur_x as int, y as int, text@.skip(k), scale as int, color.raw) == target,
            ensures
                self.backbuffer@ == target,
            decreases text@.len() - k,
        {
            let ghost rest = text@.skip(k);
            match chars.next() {
                None => {
                    assert(rest.len() == 0);
                    break;
                },
                Some(c) => {
                    assert(rest.len() > 0 && rest[0] == c);
                    if c == '\n' {
                        break;
                    }
                    assert(rest.drop_first() =~= text@.skip(k + 1));
                    assert(step * (k + 1) <= 8 * scale * (Self::first_line(text@).len())) by (nonlinear_arith)
                        requires step == 8 * scale, k + 1 <= Self::first_line(text@).len(), scale >= 0;
                    assert(step * (k + 1) == step * k + step) by (nonlinear_arith);
                    assert(8 * scale * (Self::first_line(text@).len() + 1)
                        == 8 * scale * Self::first_line(text@).len() + 8 * scale) by (nonlinear_arith);
                    let ghost before = self.backbuffer@;
                    self.draw_char_scaled(cur_x, y, c, scale, color);
                    proof {
                        lemma_scaled_frame_only(*old(self), before, cur_x as int, y as int, c, scale as int, color.raw, 64);
                    }
                    assert(old(self).text_scaled_pixels(before, cur_x as int, y as int, rest, scale as int, color.raw)
                        == old(self).text_scaled_pixels(self.backbuffer@, cur_x + step, y as int, text@.skip(k + 1), scale as int, color.raw));
                    cur_x = cur_x + step as isize;
                    proof {
                        k = k + 1;
                    }
                },
            }
        }
    }

    /// `buf` after `draw_cursor`, restricted to the first `k` cells of the
    /// 16 by 17 arrow in reading order: outline cells black, fill cells white.
    pub open spec fn cursor_pixels_upto(&self, buf: Seq<u32>, x: int, y: int, k: int) -> Seq<u32> {
        Seq::new(buf.len(), |i: int| {
            let col = i % (self.width as int);
            let row = i / (self.width as int);
            if in_rect(x, y, 16, 17, col, row) && (row - y) * 16 + (col - x) < k && self.is_visible(col, row) {
                if cursor_bit(cursor_outline(row - y), col - x) {
                    palette::BLACK
                } else if cursor_bit(cursor_fill(row - y), col - x) {
                    palette::WHITE
                } else {
                    buf[i]
                }
            } else {
                buf[i]
            }
        })
    }

    /// Draws the arrow mouse pointer with its tip at `x`, `y`.
    pub fn draw_cursor(&mut self, x: isize, y: isize)
        requires
            old(self).wf(),
            x + 16 <= isize::MAX,
            y + 17 <= isize::MAX,
        ensures
            final(self).wf(),
            final(self).same_frame(old(self)),
            final(self).backbuffer@ == old(self).cursor_pixels_upto(old(self).backbuffer@, x as int, y as int, 272),
    {
        let ghost orig = self.backbuffer@;
        let ghost wd = self.width as int;
        let black = Color::from_raw(palette::BLACK);
        let white = Color::from_raw(palette::WHITE);
        assert(((0xFF00_0000u32 >> 24u32) & 0xffu32) as u8 == 255u8) by (bit_vector);
        assert(((0xFFFF_FFFFu32 >> 24u32) & 0xffu32) as u8 == 255u8) by (bit_vector);
        assert(self.backbuffer@ =~= old(self).cursor_pixels_upto(orig, x as int, y as int, 0));
        let mut k: usize = 0;
        while k < 272
            invariant
                self.wf(),
                self.same_frame(old(self)),
                orig == old(self).backbuffer@,
                wd == self.width as int,
                black.raw == palette::BLACK,
                white.raw == palette::WHITE,
                crate::color::alpha_of(palette::BLACK) == 255,
                crate::color::alpha_of(palette::WHITE) == 255,
                x + 16 <= isize::MAX,
                y + 17 <= isize::MAX,
                k <= 272,
                self.backbuffer@ == old(self).cursor_pixels_upto(orig, x as int, y as int, k as int),
            decreases 272 - k,
        {
            let row = k / 16;
            let col = k % 16;
            let (outline, fill) = cursor_masks(row);
            let px = x + col as isize;
            let py = y + row as isize;
            let ghost target = old(self).cursor_pixels_upto(orig, x as int, y as int, k + 1);
            proof {
                assert(row * 16 + col == k);
            }
            if (outline >> (col as u16)) & 1u16 == 1u16 {
                self.draw_pixel(px, py, black);
            } else if (fill >> (col as u16)) & 1u16 == 1u16 {
                self.draw_pixel(px, py, white);
            }
            assert forall|i: int| 0 <= i < self.backbuffer@.len() implies #[trigger] self.backbuffer@[i] == target[i] by {
                lemma_index_split(i, wd, self.height as int);
                let cc = i % wd;
                let rr = i / wd;
                if in_rect(x as int, y as int, 16, 17, cc, rr) {
                    lemma_pixel_index(rr - y, cc - x, 16, 17);
                }
            }
            assert(self.backbuffer@ =~= target);
            k = k + 1;
        }
    }

    /// Presents the back buffer: the screen takes its pixels.
    pub fn flush(&mut self)
        requires
            old(self).wf(),
        ensures
            final(self).wf(),
            final(self).width == old(self).width,
            final(self).height == old(self).height,
            final(self).clip == old(self).clip,
            final(self).backbuffer@ == old(self).backbuffer@,
            final(self).bga.screen@ == old(self).backbuffer@,
            final(self).bga.phys_addr == old(self).bga.phys_addr,
            final(self).bga.bpp == old(self).bga.bpp,
    {
        self.bga.copy_framebuffer(self.backbuffer.as_slice());
        assert(self.bga.screen@ =~= self.backbuffer@);
    }

    /// Presents the `w` by `h` rectangle at `x`, `y` of the back buffer (cut
    /// to the screen); the rest of the screen keeps its pixels.
    pub fn flush_rect(&mut self, x: usize, y: usize, w: usize, h: usize)
        requires
            old(self).wf(),
            x + w <= usize::MAX,
            y + h <= usize::MAX,
        ensures
            final(self).wf(),
            final(self).width == old(self).width,
            final(self).height == old(self).height,
            final(self).clip == old(self).clip,
            final(self).backbuffer@ == old(self).backbuffer@,
            final(self).bga.phys_addr == old(self).bga.phys_addr,
            final(self).bga.bpp == old(self).bga.bpp,
            final(self).bga.screen@ == Seq::new(old(self).bga.screen@.len(), |i: int|
                if x <= i % (old(self).width as int) < x + w && y <= i / (old(self).width as int) < y + h {
                    old(self).backbuffer@[i]
                } else {
                    old(self).bga.screen@[i]
                }),
    {
        self.bga.copy_rect(self.backbuffer.as_slice(), x, y, w, h);
    }
}


impl Framebuffer {
    /// `buf` after the first `k` rows of a vertical gradient drawn as
    /// one-pixel-high fills, row `r` in the color interpolated `r * 256 / h`
    /// of the way from `top` to `bottom`.
    pub open spec fn rows_filled(&self, buf: Seq<u32>, x: int, y: int, w: int, h: int, top: u32, bottom: u32, k: int)
        -> Seq<u32>
        decreases k,
    {
        if k <= 0 {
            buf
        } else {
            self.filled(self.rows_filled(buf, x, y, w, h, top, bottom, k - 1), x, y + k - 1, w, 1,
                crate::color::lerp_spec(top, bottom, (((k - 1) * 256) / h) as u16))
        }
    }

    /// `buf` after drawing the first `k` characters of `t` one 8-pixel cell
    /// apart from `x`, each with `draw_char`.
    pub open spec fn chars_drawn(&self, buf: Seq<u32>, x: int, y: int, t: Seq<char>, color: u32, k: int) -> Seq<u32>
        decreases k,
    {
        if k <= 0 {
            buf
        } else {
            self.char_pixels(self.chars_drawn(buf, x, y, t, color, k - 1), x + 8 * (k - 1), y, t[k - 1], color)
        }
    }
}

/// The rows of a gradient filled so far: exactly the first `k` rows of the
/// rectangle, in their colors.
proof fn lemma_rows_filled(fb: Framebuffer, buf: Seq<u32>, x: int, y: int, w: int, h: int, top: u32, bottom: u32, k: int)
    requires
        0 <= k <= h,
        fb.width > 0,
    ensures
        fb.rows_filled(buf, x, y, w, h, top, bottom, k).len() == buf.len(),
        forall|i: int| 0 <= i < buf.len() ==> #[trigger] fb.rows_filled(buf, x, y, w, h, top, bottom, k)[i] == {
            let col = i % (fb.width as int);
            let row = i / (fb.width as int);
            if in_rect(x, y, w, k, col, row) && fb.is_visible(col, row) {
                blend_over_spec(buf[i], crate::color::lerp_spec(top, bottom, (((row - y) * 256) / h) as u16))
            } else {
                buf[i]
            }
        },
    decreases k,
{
    if k > 0 {
        lemma_rows_filled(fb, buf, x, y, w, h, top, bottom, k - 1);
    }
}

/// A vertical gradient is the same as filling its rows one pixel high, top
/// to bottom, row `r` in the color interpolated `r * 256 / h` of the way
/// from the top color to the bottom one (rows off the screen or outside the
/// clip change nothing); an empty one changes nothing.
pub proof fn lemma_gradient_is_row_fills(fb: Framebuffer, buf: Seq<u32>, x: int, y: int, w: int, h: int, top: u32, bottom: u32)
    requires
        fb.width > 0,
        h >= 0,
    ensures
        w != 0 && h != 0 ==> fb.gradient_v_pixels(buf, x, y, w, h, top, bottom) == fb.rows_filled(buf, x, y, w, h, top, bottom, h),
        w == 0 || h == 0 ==> fb.gradient_v_pixels(buf, x, y, w, h, top, bottom) == buf,
{
    lemma_rows_filled(fb, buf, x, y, w, h, top, bottom, h);
    if w != 0 && h != 0 {
        assert(fb.gradient_v_pixels(buf, x, y, w, h, top, bottom) =~= fb.rows_filled(buf, x, y, w, h, top, bottom, h));
    } else {
        assert(fb.gradient_v_pixels(buf, x, y, w, h, top, bottom) =~= buf);
    }
}

/// Drawing `k + 1` characters of `s` from `x` is drawing its first one
/// there and then `k` characters of the rest from `x + 8`.
proof fn lemma_chars_shift(fb: Framebuffer, buf: Seq<u32>, x: int, y: int, s: Seq<char>, color: u32, k: int)
    requires
        0 <= k,
        k + 1 <= s.len(),
    ensures
        fb.chars_drawn(buf, x, y, s, color, k + 1)
            == fb.chars_drawn(fb.char_pixels(buf, x, y, s[0], color), x + 8, y, s.drop_first(), color, k),
    decreases k,
{
    let b1 = fb.char_pixels(buf, x, y, s[0], color);
    if k > 0 {
        lemma_chars_shift(fb, buf, x, y, s, color, k - 1);
        assert(s.drop_first()[k - 1] == s[k]);
        assert(fb.chars_drawn(buf, x, y, s, color, k + 1)
            == fb.char_pixels(fb.chars_drawn(buf, x, y, s, color, k), x + 8 * k, y, s[k], color));
        assert(fb.chars_drawn(b1, x + 8, y, s.drop_first(), color, k)
            == fb.char_pixels(fb.chars_drawn(b1, x + 8, y, s.drop_first(), color, k - 1), (x + 8) + 8 * (k - 1), y,
                s.drop_first()[k - 1], color));
        assert((x + 8) + 8 * (k - 1) == x + 8 * k);
    } else {
        assert(fb.chars_drawn(buf, x, y, s, color, 1) == fb.char_pixels(fb.chars_drawn(buf, x, y, s, color, 0), x + 8 * 0, y, s[0], color));
        assert(fb.chars_drawn(b1, x + 8, y, s.drop_first(), color, 0) == b1);
    }
}

/// Drawing a string is drawing its characters one by one with `draw_char`,
/// eight pixels apart from `x`, up to the first line break (the rest is
/// never drawn).
pub proof fn lemma_string_is_chars(fb: Framebuffer, buf: Seq<u32>, x: int, y: int, text: Seq<char>, color: u32)
    ensures
        fb.text_pixels(buf, x, y, text, color)
            == fb.chars_drawn(buf, x, y, Framebuffer::first_line(text), color, Framebuffer::first_line(text).len() as int),
    decreases text.len(),
{
    if text.len() == 0 || text[0] == '\n' {
    } else {
        let rest = text.drop_first();
        let b1 = fb.char_pixels(buf, x, y, text[0], color);
        lemma_string_is_chars(fb, b1, x + 8, y, rest, color);
        let s = Framebuffer::first_line(text);
        assert(s == seq![text[0]] + Framebuffer::first_line(rest));
        assert(s.drop_first() =~= Framebuffer::first_line(rest));
        lemma_chars_shift(fb, buf, x, y, s, color, Framebuffer::first_line(rest).len() as int);
    }
}
} // verus!
