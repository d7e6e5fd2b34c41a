//! Drawing with screen coordinates and sizes of ordinary magnitude: the
//! framebuffer's primitives behind conditions that such values always meet,
//! and the 3D push button with a centred label that several windows share.
use vstd::prelude::*;
use crate::color::Color;
use crate::palette;
use crate::framebuffer::{lemma_first_line_len, Framebuffer};
use crate::text::string_from_chars;
use crate::chars::chars_of;
use crate::window::small;

verus! {

/// A position well inside the ordinary range, so that offsets of ordinary
/// size from it stay ordinary.
pub open spec fn near(v: int) -> bool {
    -0x0800_0000 <= v <= 0x0800_0000
}

/// A window's client position: far enough inside the ordinary range that
/// everything drawn relative to it stays there.
pub open spec fn inner(v: int) -> bool {
    -0x0400_0000 <= v <= 0x0400_0000
}

/// A size of ordinary magnitude (at most a mebipixel).
pub open spec fn modest(v: int) -> bool {
    0 <= v <= 0x10_0000
}

/// `after` is `before` with only back-buffer pixels changed.
pub open spec fn drawn_over(before: Framebuffer, after: Framebuffer) -> bool {
    after.wf() && after.same_frame(&before)
}

/// The part of a text that is drawn: all of it up to a mebipixel of
/// characters (the rest lies off any screen).
pub open spec fn shown(t: Seq<char>) -> Seq<char> {
    if t.len() > 0x10_0000 { t.take(0x10_0000) } else { t }
}

/// Fills a rectangle (see `Framebuffer::fill_rect`).
pub fn rect(fb: &mut Framebuffer, x: isize, y: isize, w: usize, h: usize, c: Color)
    requires
        old(fb).wf(),
        small(x as int),
        small(y as int),
        modest(w as int),
        modest(h as int),
    ensures
        drawn_over(*old(fb), *final(fb)),
        final(fb).backbuffer@ == old(fb).filled(old(fb).backbuffer@, x as int, y as int, w as int, h as int, c.raw),
{
    fb.fill_rect(x, y, w, h, c);
}

/// Outlines a rectangle (see `Framebuffer::draw_rect`).
pub fn frame(fb: &mut Framebuffer, x: isize, y: isize, w: usize, h: usize, c: Color)
    requires
        old(fb).wf(),
        small(x as int),
        small(y as int),
        modest(w as int),
        modest(h as int),
    ensures
        drawn_over(*old(fb), *final(fb)),
        final(fb).backbuffer@ == old(fb).outlined(old(fb).backbuffer@, x as int, y as int, w as int, h as int, c.raw),
{
    fb.draw_rect(x, y, w, h, c);
}

/// A raised 3D bevel (see `Framebuffer::draw_bevel_raised`).
pub fn raised(fb: &mut Framebuffer, x: isize, y: isize, w: usize, h: usize)
    requires
        old(fb).wf(),
        small(x as int),
        small(y as int),
        modest(w as int),
        modest(h as int),
    ensures
        drawn_over(*old(fb), *final(fb)),
        final(fb).backbuffer@ == old(fb).beveled(old(fb).backbuffer@, x as int, y as int, w as int, h as int,
            palette::RETRO_LIGHT, palette::RETRO_HIGHLIGHT, palette::RETRO_SHADOW, palette::RETRO_DARK_SHADOW),
{
    fb.draw_bevel_raised(x, y, w, h);
}

/// A sunken 3D bevel (see `Framebuffer::draw_bevel_sunken`).
pub fn sunken(fb: &mut Framebuffer, x: isize, y: isize, w: usize, h: usize)
    requires
        old(fb).wf(),
        small(x as int),
        small(y as int),
        modest(w as int),
        modest(h as int),
    ensures
        drawn_over(*old(fb), *final(fb)),
        final(fb).backbuffer@ == old(fb).beveled(old(fb).backbuffer@, x as int, y as int, w as int, h as int,
            palette::RETRO_SHADOW, palette::RETRO_DARK_SHADOW, palette::RETRO_HIGHLIGHT, palette::RETRO_LIGHT),
{
    fb.draw_bevel_sunken(x, y, w, h);
}

/// A sunken panel (see `Framebuffer::draw_sunken_panel`).
pub fn sunken_panel(fb: &mut Framebuffer, x: isize, y: isize, w: usize, h: usize)
    requires
        old(fb).wf(),
        small(x as int),
        small(y as int),
        modest(w as int),
        modest(h as int),
    ensures
        drawn_over(*old(fb), *final(fb)),
        final(fb).backbuffer@ == old(fb).paneled(old(fb).backbuffer@, x as int, y as int, w as int, h as int,
            palette::RETRO_SHADOW, palette::RETRO_LIGHT),
{
    fb.draw_sunken_panel(x, y, w, h);
}

/// A 3D button face (see `Framebuffer::draw_button`).
pub fn button(fb: &mut Framebuffer, x: isize, y: isize, w: usize, h: usize, pressed: bool)
    requires
        old(fb).wf(),
        small(x as int),
        small(y as int),
        modest(w as int),
        modest(h as int),
    ensures
        drawn_over(*old(fb), *final(fb)),
        final(fb).backbuffer@ == old(fb).buttoned(old(fb).backbuffer@, x as int, y as int, w as int, h as int, pressed),
{
    fb.draw_button(x, y, w, h, pressed);
}

/// An etched groove (see `Framebuffer::draw_groove`).
pub fn groove(fb: &mut Framebuffer, x: isize, y: isize, w: usize, h: usize)
    requires
        old(fb).wf(),
        small(x as int),
        small(y as int),
        modest(w as int),
        modest(h as int),
    ensures
        drawn_over(*old(fb), *final(fb)),
        final(fb).backbuffer@ == old(fb).grooved(old(fb).backbuffer@, x as int, y as int, w as int, h as int),
{
    fb.draw_groove(x, y, w, h);
}

/// A vertical gradient (see `Framebuffer::draw_gradient_v`).
pub fn gradient_v(fb: &mut Framebuffer, x: isize, y: isize, w: usize, h: usize, top: Color, bottom: Color)
    requires
        old(fb).wf(),
        small(x as int),
        small(y as int),
        modest(w as int),
        modest(h as int),
    ensures
        drawn_over(*old(fb), *final(fb)),
        final(fb).backbuffer@ == old(fb).gradient_v_pixels(old(fb).backbuffer@, x as int, y as int, w as int, h as int,
            top.raw, bottom.raw),
{
    fb.draw_gradient_v(x, y, w, h, top, bottom);
}

/// A horizontal gradient (see `Framebuffer::draw_gradient_h`).
pub fn gradient_h(fb: &mut Framebuffer, x: isize, y: isize, w: usize, h: usize, left: Color, right: Color)
    requires
        old(fb).wf(),
        small(x as int),
        small(y as int),
        modest(w as int),
        modest(h as int),
    ensures
        drawn_over(*old(fb), *final(fb)),
        final(fb).backbuffer@ == old(fb).gradient_h_pixels(old(fb).backbuffer@, x as int, y as int, w as int, h as int,
            left.raw, right.raw),
{
    assert(Framebuffer::gradient_h_width(w as int) <= w + 1);
    fb.draw_gradient_h(x, y, w, h, left, right);
}

/// One pixel (see `Framebuffer::draw_pixel`).
pub fn dot(fb: &mut Framebuffer, x: isize, y: isize, c: Color)
    requires
        old(fb).wf(),
    ensures
        drawn_over(*old(fb), *final(fb)),
        final(fb).backbuffer@ == old(fb).filled(old(fb).backbuffer@, x as int, y as int, 1, 1, c.raw),
{
    fb.draw_pixel(x, y, c);
}

/// One character (see `Framebuffer::draw_char`).
pub fn glyph(fb: &mut Framebuffer, x: isize, y: isize, ch: char, c: Color)
    requires
        old(fb).wf(),
        small(x as int),
        small(y as int),
    ensures
        drawn_over(*old(fb), *final(fb)),
        final(fb).backbuffer@ == old(fb).char_pixels(old(fb).backbuffer@, x as int, y as int, ch, c.raw),
{
    fb.draw_char(x, y, ch, c);
}

/// A line of text (see `Framebuffer::draw_string`; the part past a
/// mebipixel of characters lies off any screen and is left out).
pub fn label(fb: &mut Framebuffer, x: isize, y: isize, text: &str, c: Color)
    requires
        old(fb).wf(),
        small(x as int),
        small(y as int),
    ensures
        drawn_over(*old(fb), *final(fb)),
        final(fb).backbuffer@ == old(fb).text_pixels(old(fb).backbuffer@, x as int, y as int, shown(text@), c.raw),
{
    let t = chars_of(text);
    label_any(fb, x, y, t.as_slice(), c);
}

/// A line of text given as characters.
pub fn label_chars(fb: &mut Framebuffer, x: isize, y: isize, text: &[char], c: Color)
    requires
        old(fb).wf(),
        small(x as int),
        small(y as int),
        text@.len() <= 0x10_0000,
    ensures
        drawn_over(*old(fb), *final(fb)),
        final(fb).backbuffer@ == old(fb).text_pixels(old(fb).backbuffer@, x as int, y as int, text@, c.raw),
{
    let s = string_from_chars(text);
    proof {
        lemma_first_line_len(text@);
    }
    fb.draw_string(x, y, s.as_str(), c);
}

/// A line of text given as characters, of any length (the part past a
/// mebipixel of characters lies off any screen and is left out).
pub fn label_any(fb: &mut Framebuffer, x: isize, y: isize, text: &[char], c: Color)
    requires
        old(fb).wf(),
        small(x as int),
        small(y as int),
    ensures
        drawn_over(*old(fb), *final(fb)),
        final(fb).backbuffer@ == old(fb).text_pixels(old(fb).backbuffer@, x as int, y as int, shown(text@), c.raw),
{
    let t = clipped(text, 0x10_0000);
    label_chars(fb, x, y, t.as_slice(), c);
}

/// A dark push button with a centred label and a colored outline: its slate
/// face, the `border` outline, and (at most 4096 characters of) `text` in
/// near-white, centred; exactly the pixels of `label_button_shapes`.
pub fn label_button(fb: &mut Framebuffer, x: isize, y: isize, w: usize, h: usize, text: &str, border: Color)
    requires
        old(fb).wf(),
        near(x as int),
        near(y as int),
        modest(w as int),
        modest(h as int),
    ensures
        drawn_over(*old(fb), *final(fb)),
        final(fb).backbuffer@ == crate::scene::painted(*old(fb), old(fb).backbuffer@,
            crate::scene::label_button_shapes(x as int, y as int, w as int, h as int, text@, border.raw)),
{
    let ghost fb0 = *fb;
    let ghost sh = crate::scene::label_button_shapes(x as int, y as int, w as int, h as int, text@, border.raw);
    let ghost mid = *fb;
    rect(fb, x, y, w, h, Color::from_rgb(30, 41, 59));
    proof {
        crate::scene::lemma_paint_step(fb0, mid, sh.take(0), sh[0]);
        assert(sh.take(0).push(sh[0]) =~= sh.take(1));
    }
    let ghost mid = *fb;
    frame(fb, x, y, w, h, border);
    proof {
        crate::scene::lemma_paint_step(fb0, mid, sh.take(1), sh[1]);
        assert(sh.take(1).push(sh[1]) =~= sh.take(2));
    }
    let t = chars_of(text);
    let t = clipped(t.as_slice(), 0x1000);
    let lx = x + crate::scene::half_of(w as isize - (t.len() * 8) as isize);
    let ly = y + crate::scene::half_of(h as isize - 10);
    let ghost mid = *fb;
    label_chars(fb, lx, ly, t.as_slice(), Color::from_rgb(241, 245, 249));
    proof {
        assert(shown(t@) == t@);
        crate::scene::lemma_paint_step(fb0, mid, sh.take(2), sh[2]);
        assert(sh.take(2).push(sh[2]) =~= sh);
    }
}

/// At most the first `n` characters of `t`.
pub fn clipped(t: &[char], n: usize) -> (r: Vec<char>)
    ensures
        r@ == if t@.len() > n { t@.take(n as int) } else { t@ },
{
    let mut r: Vec<char> = Vec::new();
    let mut i: usize = 0;
    while i < t.len() && i < n
        invariant
            i <= t@.len(),
            i <= n,
            r@ == t@.take(i as int),
        decreases t@.len() - i,
    {
        r.push(t[i]);
        i = i + 1;
        assert(r@ =~= t@.take(i as int));
    }
    if t.len() <= n {
        assert(t@.take(t@.len() as int) =~= t@);
    }
    r
}

} // verus!
