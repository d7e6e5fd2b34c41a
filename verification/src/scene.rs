//! Scenes: what a window shows, as a list of shapes drawn in order. A
//! window's contents are described by a scene, and `paint` draws any scene
//! with exactly the pixels `painted` says.
use vstd::prelude::*;
use crate::color::Color;
use crate::framebuffer::{fill_pixels, Framebuffer};
use crate::palette;
use crate::render::{
    button, drawn_over, frame, gradient_h, gradient_v, groove, label_any, modest, raised, rect, shown, sunken,
    sunken_panel,
};
use crate::window::small;

verus! {

/// One shape of a scene.
#[derive(Debug)]
pub enum Shape {
    /// A filled rectangle.
    Fill { x: isize, y: isize, w: usize, h: usize, color: u32 },
    /// A one-pixel rectangle outline.
    Outline { x: isize, y: isize, w: usize, h: usize, color: u32 },
    /// A raised 3D border.
    Raised { x: isize, y: isize, w: usize, h: usize },
    /// A sunken 3D border.
    Sunken { x: isize, y: isize, w: usize, h: usize },
    /// A one-pixel sunken panel border.
    Panel { x: isize, y: isize, w: usize, h: usize },
    /// A push button face and border.
    Button { x: isize, y: isize, w: usize, h: usize, pressed: bool },
    /// An etched groove.
    Groove { x: isize, y: isize, w: usize, h: usize },
    /// A vertical color gradient.
    GradientV { x: isize, y: isize, w: usize, h: usize, top: u32, bottom: u32 },
    /// A horizontal color gradient.
    GradientH { x: isize, y: isize, w: usize, h: usize, left: u32, right: u32 },
    /// A line of text.
    Text { x: isize, y: isize, text: Vec<char>, color: u32 },
    /// A line of text magnified `scale` times.
    Big { x: isize, y: isize, text: Vec<char>, scale: usize, color: u32 },
    /// The mouse pointer with its tip at `(x, y)`.
    Pointer { x: isize, y: isize },
    /// The whole screen in one color (no clipping, no compositing).
    Clear { color: u32 },
}

/// A shape as a mathematical value.
pub enum ShapeV {
    Fill { x: int, y: int, w: int, h: int, color: u32 },
    Outline { x: int, y: int, w: int, h: int, color: u32 },
    Raised { x: int, y: int, w: int, h: int },
    Sunken { x: int, y: int, w: int, h: int },
    Panel { x: int, y: int, w: int, h: int },
    Button { x: int, y: int, w: int, h: int, pressed: bool },
    Groove { x: int, y: int, w: int, h: int },
    GradientV { x: int, y: int, w: int, h: int, top: u32, bottom: u32 },
    GradientH { x: int, y: int, w: int, h: int, left: u32, right: u32 },
    Text { x: int, y: int, text: Seq<char>, color: u32 },
    Big { x: int, y: int, text: Seq<char>, scale: int, color: u32 },
    Pointer { x: int, y: int },
    Clear { color: u32 },
    /// A `size` by `size` square composited straight into the back buffer,
    /// past any clipping rectangle.
    Block { x: int, y: int, size: int, color: u32 },
}

impl View for Shape {
    type V = ShapeV;

    open spec fn view(&self) -> ShapeV {
        match self {
            Shape::Fill { x, y, w, h, color } => ShapeV::Fill { x: *x as int, y: *y as int, w: *w as int, h: *h as int, color: *color },
            Shape::Outline { x, y, w, h, color } => ShapeV::Outline { x: *x as int, y: *y as int, w: *w as int, h: *h as int, color: *color },
            Shape::Raised { x, y, w, h } => ShapeV::Raised { x: *x as int, y: *y as int, w: *w as int, h: *h as int },
            Shape::Sunken { x, y, w, h } => ShapeV::Sunken { x: *x as int, y: *y as int, w: *w as int, h: *h as int },
            Shape::Panel { x, y, w, h } => ShapeV::Panel { x: *x as int, y: *y as int, w: *w as int, h: *h as int },
            Shape::Button { x, y, w, h, pressed } => ShapeV::Button { x: *x as int, y: *y as int, w: *w as int, h: *h as int, pressed: *pressed },
            Shape::Groove { x, y, w, h } => ShapeV::Groove { x: *x as int, y: *y as int, w: *w as int, h: *h as int },
            Shape::GradientV { x, y, w, h, top, bottom } => ShapeV::GradientV { x: *x as int, y: *y as int, w: *w as int, h: *h as int, top: *top, bottom: *bottom },
            Shape::GradientH { x, y, w, h, left, right } => ShapeV::GradientH { x: *x as int, y: *y as int, w: *w as int, h: *h as int, left: *left, right: *right },
            Shape::Text { x, y, text, color } => ShapeV::Text { x: *x as int, y: *y as int, text: text@, color: *color },
            Shape::Big { x, y, text, scale, color } => ShapeV::Big { x: *x as int, y: *y as int, text: text@, scale: *scale as int, color: *color },
            Shape::Pointer { x, y } => ShapeV::Pointer { x: *x as int, y: *y as int },
            Shape::Clear { color } => ShapeV::Clear { color: *color },
        }
    }
}

/// The shapes of a scene as values.
pub open spec fn shapes_view(v: Seq<Shape>) -> Seq<ShapeV> {
    v.map_values(|s: Shape| s@)
}

/// A shape whose position and size are of ordinary magnitude.
pub open spec fn shape_ok(s: ShapeV) -> bool {
    match s {
        ShapeV::Fill { x, y, w, h, .. } => small(x) && small(y) && modest(w) && modest(h),
        ShapeV::Outline { x, y, w, h, .. } => small(x) && small(y) && modest(w) && modest(h),
        ShapeV::Raised { x, y, w, h } => small(x) && small(y) && modest(w) && modest(h),
        ShapeV::Sunken { x, y, w, h } => small(x) && small(y) && modest(w) && modest(h),
        ShapeV::Panel { x, y, w, h } => small(x) && small(y) && modest(w) && modest(h),
        ShapeV::Button { x, y, w, h, .. } => small(x) && small(y) && modest(w) && modest(h),
        ShapeV::Groove { x, y, w, h } => small(x) && small(y) && modest(w) && modest(h),
        ShapeV::GradientV { x, y, w, h, .. } => small(x) && small(y) && modest(w) && modest(h),
        ShapeV::GradientH { x, y, w, h, .. } => small(x) && small(y) && modest(w) && modest(h),
        ShapeV::Text { x, y, .. } => small(x) && small(y),
        ShapeV::Big { x, y, text, scale, .. } => small(x) && small(y) && 1 <= scale <= 16 && text.len() <= 0x1000,
        ShapeV::Pointer { x, y } => small(x) && small(y),
        ShapeV::Clear { .. } => true,
        ShapeV::Block { x, y, size, .. } => small(x) && small(y) && modest(size),
    }
}

/// Every shape of the scene is of ordinary magnitude.
pub open spec fn scene_ok(ss: Seq<ShapeV>) -> bool {
    forall|i: int| 0 <= i < ss.len() ==> #[trigger] shape_ok(ss[i])
}

/// `buf` with shape `s` drawn on it through the frame (size and clip) of `fb`.
pub open spec fn shape_pixels(fb: Framebuffer, buf: Seq<u32>, s: ShapeV) -> Seq<u32> {
    match s {
        ShapeV::Fill { x, y, w, h, color } => fb.filled(buf, x, y, w, h, color),
        ShapeV::Outline { x, y, w, h, color } => fb.outlined(buf, x, y, w, h, color),
        ShapeV::Raised { x, y, w, h } => fb.beveled(buf, x, y, w, h,
            palette::RETRO_LIGHT, palette::RETRO_HIGHLIGHT, palette::RETRO_SHADOW, palette::RETRO_DARK_SHADOW),
        ShapeV::Sunken { x, y, w, h } => fb.beveled(buf, x, y, w, h,
            palette::RETRO_SHADOW, palette::RETRO_DARK_SHADOW, palette::RETRO_HIGHLIGHT, palette::RETRO_LIGHT),
        ShapeV::Panel { x, y, w, h } => fb.paneled(buf, x, y, w, h, palette::RETRO_SHADOW, palette::RETRO_LIGHT),
        ShapeV::Button { x, y, w, h, pressed } => fb.buttoned(buf, x, y, w, h, pressed),
        ShapeV::Groove { x, y, w, h } => fb.grooved(buf, x, y, w, h),
        ShapeV::GradientV { x, y, w, h, top, bottom } => fb.gradient_v_pixels(buf, x, y, w, h, top, bottom),
        ShapeV::GradientH { x, y, w, h, left, right } => fb.gradient_h_pixels(buf, x, y, w, h, left, right),
        ShapeV::Text { x, y, text, color } => fb.text_pixels(buf, x, y, shown(text), color),
        ShapeV::Big { x, y, text, scale, color } => fb.text_scaled_pixels(buf, x, y, text, scale, color),
        ShapeV::Pointer { x, y } => fb.cursor_pixels_upto(buf, x, y, 272),
        ShapeV::Clear { color } => Seq::new(buf.len(), |i: int| color),
        ShapeV::Block { x, y, size, color } =>
            fill_pixels(buf, fb.width as int, fb.height as int, None, x, y, size, size, color),
    }
}

/// `buf` with the shapes of `ss` drawn on it in order.
pub open spec fn painted(fb: Framebuffer, buf: Seq<u32>, ss: Seq<ShapeV>) -> Seq<u32>
    decreases ss.len(),
{
    if ss.len() == 0 {
        buf
    } else {
        shape_pixels(fb, painted(fb, buf, ss.drop_last()), ss.last())
    }
}

/// Whether two framebuffers have the same size and clip.
pub open spec fn same_view(a: Framebuffer, b: Framebuffer) -> bool {
    a.width == b.width && a.height == b.height && a.clip == b.clip
}

pub proof fn lemma_text_frame_only(a: Framebuffer, b: Framebuffer, buf: Seq<u32>, x: int, y: int, t: Seq<char>, color: u32)
    requires
        same_view(a, b),
    ensures
        a.text_pixels(buf, x, y, t, color) == b.text_pixels(buf, x, y, t, color),
    decreases t.len(),
{
    if t.len() > 0 && t[0] != '\n' {
        assert(a.char_pixels(buf, x, y, t[0], color) =~= b.char_pixels(buf, x, y, t[0], color));
        lemma_text_frame_only(a, b, a.char_pixels(buf, x, y, t[0], color), x + 8, y, t.drop_first(), color);
    }
}

proof fn lemma_scaled_text_frame_only(a: Framebuffer, b: Framebuffer, buf: Seq<u32>, x: int, y: int, t: Seq<char>,
    scale: int, color: u32)
    requires
        same_view(a, b),
    ensures
        a.text_scaled_pixels(buf, x, y, t, scale, color) == b.text_scaled_pixels(buf, x, y, t, scale, color),
    decreases t.len(),
{
    if t.len() > 0 && t[0] != '\n' {
        crate::framebuffer::lemma_scaled_frame_only(b, buf, x, y, t[0], scale, color, 64);
        lemma_scaled_text_frame_only(a, b, b.char_scaled_upto(buf, x, y, t[0], scale, color, 64), x + 8 * scale, y,
            t.drop_first(), scale, color);
    }
}

/// A shape's pixels depend only on the frame it is drawn through.
proof fn lemma_shape_frame_only(a: Framebuffer, b: Framebuffer, buf: Seq<u32>, s: ShapeV)
    requires
        same_view(a, b),
    ensures
        shape_pixels(a, buf, s) == shape_pixels(b, buf, s),
{
    match s {
        ShapeV::GradientV { x, y, w, h, top, bottom } => {
            assert(a.gradient_v_pixels(buf, x, y, w, h, top, bottom) =~= b.gradient_v_pixels(buf, x, y, w, h, top, bottom));
        },
        ShapeV::GradientH { x, y, w, h, left, right } => {
            assert(a.gradient_h_pixels(buf, x, y, w, h, left, right) =~= b.gradient_h_pixels(buf, x, y, w, h, left, right));
        },
        ShapeV::Text { x, y, text, color } => {
            lemma_text_frame_only(a, b, buf, x, y, shown(text), color);
        },
        ShapeV::Big { x, y, text, scale, color } => {
            lemma_scaled_text_frame_only(a, b, buf, x, y, text, scale, color);
        },
        ShapeV::Pointer { x, y } => {
            assert(a.cursor_pixels_upto(buf, x, y, 272) =~= b.cursor_pixels_upto(buf, x, y, 272));
        },
        _ => {},
    }
}

/// Drawing shape `s` through any framebuffer of the same frame as `fb0`, on
/// what the scene `sc` painted, paints `sc` with `s` added.
pub proof fn lemma_paint_step(fb0: Framebuffer, mid: Framebuffer, sc: Seq<ShapeV>, s: ShapeV)
    requires
        same_view(fb0, mid),
        mid.backbuffer@ == painted(fb0, fb0.backbuffer@, sc),
    ensures
        shape_pixels(mid, mid.backbuffer@, s) == painted(fb0, fb0.backbuffer@, sc.push(s)),
{
    assert(sc.push(s).drop_last() =~= sc);
    lemma_shape_frame_only(mid, fb0, mid.backbuffer@, s);
}

/// A scene's pixels depend only on the frame it is drawn through.
pub proof fn lemma_painted_frame_only(a: Framebuffer, b: Framebuffer, buf: Seq<u32>, ss: Seq<ShapeV>)
    requires
        same_view(a, b),
    ensures
        painted(a, buf, ss) == painted(b, buf, ss),
    decreases ss.len(),
{
    if ss.len() > 0 {
        lemma_painted_frame_only(a, b, buf, ss.drop_last());
        lemma_shape_frame_only(a, b, painted(b, buf, ss.drop_last()), ss.last());
    }
}

/// Drawing the scene `more` through any framebuffer of the same frame as
/// `fb0`, on what the scene `sc` painted, paints `sc` followed by `more`.
pub proof fn lemma_paint_seq(fb0: Framebuffer, mid: Framebuffer, sc: Seq<ShapeV>, more: Seq<ShapeV>)
    requires
        same_view(fb0, mid),
    ensures
        painted(mid, painted(fb0, fb0.backbuffer@, sc), more) == painted(fb0, fb0.backbuffer@, sc + more),
    decreases more.len(),
{
    if more.len() == 0 {
        assert(sc + more =~= sc);
    } else {
        lemma_paint_seq(fb0, mid, sc, more.drop_last());
        assert((sc + more).drop_last() =~= sc + more.drop_last());
        lemma_shape_frame_only(mid, fb0, painted(fb0, fb0.backbuffer@, sc + more.drop_last()), more.last());
    }
}

/// Draws one shape.
pub fn draw_shape(fb: &mut Framebuffer, s: &Shape)
    requires
        old(fb).wf(),
        shape_ok(s@),
    ensures
        drawn_over(*old(fb), *final(fb)),
        final(fb).backbuffer@ == shape_pixels(*old(fb), old(fb).backbuffer@, s@),
{
    match s {
        Shape::Fill { x, y, w, h, color } => rect(fb, *x, *y, *w, *h, Color::from_raw(*color)),
        Shape::Outline { x, y, w, h, color } => frame(fb, *x, *y, *w, *h, Color::from_raw(*color)),
        Shape::Raised { x, y, w, h } => raised(fb, *x, *y, *w, *h),
        Shape::Sunken { x, y, w, h } => sunken(fb, *x, *y, *w, *h),
        Shape::Panel { x, y, w, h } => sunken_panel(fb, *x, *y, *w, *h),
        Shape::Button { x, y, w, h, pressed } => button(fb, *x, *y, *w, *h, *pressed),
        Shape::Groove { x, y, w, h } => groove(fb, *x, *y, *w, *h),
        Shape::GradientV { x, y, w, h, top, bottom } =>
            gradient_v(fb, *x, *y, *w, *h, Color::from_raw(*top), Color::from_raw(*bottom)),
        Shape::GradientH { x, y, w, h, left, right } =>
            gradient_h(fb, *x, *y, *w, *h, Color::from_raw(*left), Color::from_raw(*right)),
        Shape::Text { x, y, text, color } => label_any(fb, *x, *y, text.as_slice(), Color::from_raw(*color)),
        Shape::Big { x, y, text, scale, color } => {
            let t = crate::text::string_from_chars(text.as_slice());
            proof {
                crate::framebuffer::lemma_first_line_len(text@);
                let n = Framebuffer::first_line(text@).len();
                let sc = *scale as int;
                assert(8 * sc * (n + 1) <= 8 * 16 * 0x1001) by (nonlinear_arith)
                    requires 1 <= sc <= 16, 0 <= n <= 0x1000;
            }
            fb.draw_string_scaled(*x, *y, t.as_str(), *scale, Color::from_raw(*color));
        },
        Shape::Pointer { x, y } => fb.draw_cursor(*x, *y),
        Shape::Clear { color } => fb.clear(Color::from_raw(*color)),
    }
}

/// Draws the shapes of `scene` in order: the pixels are exactly those
/// `painted` gives.
pub fn paint(fb: &mut Framebuffer, scene: &[Shape])
    requires
        old(fb).wf(),
        scene_ok(shapes_view(scene@)),
    ensures
        drawn_over(*old(fb), *final(fb)),
        final(fb).backbuffer@ == painted(*old(fb), old(fb).backbuffer@, shapes_view(scene@)),
{
    let ghost fb0 = *fb;
    let ghost ss = shapes_view(scene@);
    let mut i: usize = 0;
    while i < scene.len()
        invariant
            fb.wf(),
            fb.same_frame(&fb0),
            fb0 == *old(fb),
            ss == shapes_view(scene@),
            scene_ok(ss),
            i <= scene@.len(),
            fb.backbuffer@ == painted(fb0, fb0.backbuffer@, ss.take(i as int)),
        decreases scene@.len() - i,
    {
        let ghost mid = *fb;
        assert(shape_ok(ss[i as int]));
        draw_shape(fb, &scene[i]);
        proof {
            lemma_shape_frame_only(mid, fb0, mid.backbuffer@, ss[i as int]);
            assert(ss.take(i + 1).drop_last() =~= ss.take(i as int));
        }
        i = i + 1;
    }
    assert(ss.take(scene@.len() as int) =~= ss);
}

/// Adds `s` to `scene`.
pub fn push_shape(scene: &mut Vec<Shape>, s: Shape)
    ensures
        shapes_view(final(scene)@) == shapes_view(old(scene)@).push(s@),
{
    let ghost before = scene@;
    scene.push(s);
    assert(shapes_view(scene@) =~= shapes_view(before).push(s@));
}


/// A filled rectangle.
pub open spec fn sfill(x: int, y: int, w: int, h: int, color: u32) -> ShapeV {
    ShapeV::Fill { x, y, w, h, color }
}

/// A rectangle outline.
pub open spec fn soutline(x: int, y: int, w: int, h: int, color: u32) -> ShapeV {
    ShapeV::Outline { x, y, w, h, color }
}

/// A line of text.
pub open spec fn stext(x: int, y: int, text: Seq<char>, color: u32) -> ShapeV {
    ShapeV::Text { x, y, text, color }
}

/// A dark push button at `(x, y)`, `w` by `h`: its slate face, the
/// `border` outline, and (at most 4096 characters of) `t` in near-white,
/// centred.
pub open spec fn label_button_shapes(x: int, y: int, w: int, h: int, t: Seq<char>, border: u32) -> Seq<ShapeV> {
    let l = clip_to(t, 0x1000);
    seq![
        sfill(x, y, w, h, crate::color::pack_argb(255, 30, 41, 59)),
        soutline(x, y, w, h, border),
        stext(x + half(w - 8 * l.len()), y + half(h - 10), l, crate::color::pack_argb(255, 241, 245, 249))
    ]
}

/// `v / 2` rounded toward zero, as integer division on machine integers
/// rounds.
pub open spec fn half(v: int) -> int {
    if v >= 0 { v / 2 } else { -((-v) / 2) }
}

/// `v / 2` rounded toward zero.
pub fn half_of(v: isize) -> (r: isize)
    ensures
        r == half(v as int),
{
    if v >= 0 {
        v / 2
    } else {
        assert(v > isize::MIN || v == isize::MIN);
        if v == isize::MIN {
            -(isize::MAX / 2) - 1
        } else {
            -((-v) / 2)
        }
    }
}

/// At most the first `n` characters of `t`.
pub open spec fn clip_to(t: Seq<char>, n: int) -> Seq<char> {
    if t.len() > n { t.take(n) } else { t }
}

/// Adds a filled rectangle.
pub fn add_fill(scene: &mut Vec<Shape>, x: isize, y: isize, w: usize, h: usize, color: u32)
    requires
        small(x as int),
        small(y as int),
        modest(w as int),
        modest(h as int),
    ensures
        shapes_view(final(scene)@) == shapes_view(old(scene)@).push(sfill(x as int, y as int, w as int, h as int, color)),
        scene_ok(shapes_view(old(scene)@)) ==> scene_ok(shapes_view(final(scene)@)),
{
    push_shape(scene, Shape::Fill { x, y, w, h, color });
}

/// Adds a rectangle outline.
pub fn add_outline(scene: &mut Vec<Shape>, x: isize, y: isize, w: usize, h: usize, color: u32)
    requires
        small(x as int),
        small(y as int),
        modest(w as int),
        modest(h as int),
    ensures
        shapes_view(final(scene)@) == shapes_view(old(scene)@).push(soutline(x as int, y as int, w as int, h as int, color)),
        scene_ok(shapes_view(old(scene)@)) ==> scene_ok(shapes_view(final(scene)@)),
{
    push_shape(scene, Shape::Outline { x, y, w, h, color });
}

/// Adds a shape without text.
pub fn add_shape(scene: &mut Vec<Shape>, s: Shape)
    requires
        shape_ok(s@),
    ensures
        shapes_view(final(scene)@) == shapes_view(old(scene)@).push(s@),
        scene_ok(shapes_view(old(scene)@)) ==> scene_ok(shapes_view(final(scene)@)),
{
    push_shape(scene, s);
}

/// Adds the text `text`.
pub fn add_text(scene: &mut Vec<Shape>, x: isize, y: isize, text: Vec<char>, color: u32)
    requires
        small(x as int),
        small(y as int),
    ensures
        shapes_view(final(scene)@) == shapes_view(old(scene)@).push(stext(x as int, y as int, text@, color)),
        scene_ok(shapes_view(old(scene)@)) ==> scene_ok(shapes_view(final(scene)@)),
{
    push_shape(scene, Shape::Text { x, y, text, color });
}

/// Adds the text of the literal `text`.
pub fn add_label(scene: &mut Vec<Shape>, x: isize, y: isize, text: &str, color: u32)
    requires
        small(x as int),
        small(y as int),
    ensures
        shapes_view(final(scene)@) == shapes_view(old(scene)@).push(stext(x as int, y as int, text@, color)),
        scene_ok(shapes_view(old(scene)@)) ==> scene_ok(shapes_view(final(scene)@)),
{
    let t = crate::chars::chars_of(text);
    add_text(scene, x, y, t, color);
}


/// Adds the text `text` magnified `scale` times.
pub fn add_big(scene: &mut Vec<Shape>, x: isize, y: isize, text: Vec<char>, scale: usize, color: u32)
    requires
        small(x as int),
        small(y as int),
        1 <= scale <= 16,
        text@.len() <= 0x1000,
    ensures
        shapes_view(final(scene)@) == shapes_view(old(scene)@).push(ShapeV::Big { x: x as int, y: y as int, text: text@, scale: scale as int, color }),
        scene_ok(shapes_view(old(scene)@)) ==> scene_ok(shapes_view(final(scene)@)),
{
    push_shape(scene, Shape::Big { x, y, text, scale, color });
}

} // verus!
