//! 32-bit ARGB colors and the integer blending rules used by the compositor.
use vstd::prelude::*;

verus! {

/// The alpha channel (bits 24..32) of a packed ARGB value.
pub open spec fn alpha_of(raw: u32) -> u8 {
    ((raw >> 24u32) & 0xffu32) as u8
}

/// The red channel (bits 16..24) of a packed ARGB value.
pub open spec fn red_of(raw: u32) -> u8 {
    ((raw >> 16u32) & 0xffu32) as u8
}

/// The green channel (bits 8..16) of a packed ARGB value.
pub open spec fn green_of(raw: u32) -> u8 {
    ((raw >> 8u32) & 0xffu32) as u8
}

/// The blue channel (bits 0..8) of a packed ARGB value.
pub open spec fn blue_of(raw: u32) -> u8 {
    (raw & 0xffu32) as u8
}

/// Packs four channels into one ARGB word.
pub open spec fn pack_argb(a: u8, r: u8, g: u8, b: u8) -> u32 {
    ((a as u32) << 24u32) | ((r as u32) << 16u32) | ((g as u32) << 8u32) | (b as u32)
}

/// Linear interpolation of one channel at progress `t` (out of 256).
pub open spec fn lerp_channel(from: u8, to: u8, t: int) -> u8 {
    ((from * (256 - t) + to * t) / 256) as u8
}

/// The clamped progress that `lerp` works with.
pub open spec fn lerp_progress(t: u16) -> int {
    if t > 256 { 256 } else { t as int }
}

/// The packed result of interpolating `from` towards `to` at progress `t`.
pub open spec fn lerp_spec(from: u32, to: u32, t: u16) -> u32 {
    let p = lerp_progress(t);
    pack_argb(
        lerp_channel(alpha_of(from), alpha_of(to), p),
        lerp_channel(red_of(from), red_of(to), p),
        lerp_channel(green_of(from), green_of(to), p),
        lerp_channel(blue_of(from), blue_of(to), p),
    )
}

/// One channel of `fg` mixed over `bg` with opacity `a` (out of 255).
pub open spec fn blend_channel(fg: u8, bg: u8, a: u8) -> u8 {
    ((fg * a + bg * (255 - a)) / 255) as u8
}

/// The packed result of alpha-compositing `fg` over the background `bg`:
/// an opaque foreground replaces the background, a fully transparent one
/// leaves it, and anything in between is mixed channel by channel into an
/// opaque result.
pub open spec fn blend_over_spec(bg: u32, fg: u32) -> u32 {
    let a = alpha_of(fg);
    if a == 255 {
        fg
    } else if a == 0 {
        bg
    } else {
        pack_argb(
            255,
            blend_channel(red_of(fg), red_of(bg), a),
            blend_channel(green_of(fg), green_of(bg), a),
            blend_channel(blue_of(fg), blue_of(bg), a),
        )
    }
}

/// Packing four channels and reading them back gives the same channels.
pub proof fn lemma_pack_then_channels(a: u8, r: u8, g: u8, b: u8)
    ensures
        alpha_of(pack_argb(a, r, g, b)) == a,
        red_of(pack_argb(a, r, g, b)) == r,
        green_of(pack_argb(a, r, g, b)) == g,
        blue_of(pack_argb(a, r, g, b)) == b,
{
    assert(((((a as u32) << 24u32) | ((r as u32) << 16u32) | ((g as u32) << 8u32) | (b as u32))
        >> 24u32) & 0xffu32 == a as u32) by (bit_vector);
    assert(((((a as u32) << 24u32) | ((r as u32) << 16u32) | ((g as u32) << 8u32) | (b as u32))
        >> 16u32) & 0xffu32 == r as u32) by (bit_vector);
    assert(((((a as u32) << 24u32) | ((r as u32) << 16u32) | ((g as u32) << 8u32) | (b as u32))
        >> 8u32) & 0xffu32 == g as u32) by (bit_vector);
    assert((((a as u32) << 24u32) | ((r as u32) << 16u32) | ((g as u32) << 8u32) | (b as u32))
        & 0xffu32 == b as u32) by (bit_vector);
}

/// Splitting a word into its channels and packing them again gives the word back.
pub proof fn lemma_channels_then_pack(raw: u32)
    ensures
        pack_argb(alpha_of(raw), red_of(raw), green_of(raw), blue_of(raw)) == raw,
{
    assert((((((raw >> 24u32) & 0xffu32) as u8) as u32) << 24u32)
        | (((((raw >> 16u32) & 0xffu32) as u8) as u32) << 16u32)
        | (((((raw >> 8u32) & 0xffu32) as u8) as u32) << 8u32)
        | (((raw & 0xffu32) as u8) as u32) == raw) by (bit_vector);
}

/// A 32-bit ARGB color: alpha in the top byte, then red, green and blue.
#[derive(Debug, Clone, Copy, PartialEq, Eq, Structural)]
pub struct Color {
    pub raw: u32,
}

impl Color {
    /// An opaque color from its red, green and blue channels.
    pub fn new(r: u8, g: u8, b: u8) -> (c: Color)
        ensures
            c.raw == pack_argb(255, r, g, b),
    {
        Self::from_rgb(r, g, b)
    }

    /// A color from its packed ARGB word.
    pub fn from_raw(raw: u32) -> (c: Color)
        ensures
            c.raw == raw,
    {
        Color { raw }
    }

    /// A color from its packed ARGB word.
    pub fn from_u32(raw: u32) -> (c: Color)
        ensures
            c.raw == raw,
    {
        Color { raw }
    }

    /// The packed ARGB word.
    pub fn to_u32(self) -> (raw: u32)
        ensures
            raw == self.raw,
    {
        self.raw
    }

    /// An opaque color from its red, green and blue channels.
    pub fn from_rgb(r: u8, g: u8, b: u8) -> (c: Color)
        ensures
            c.raw == pack_argb(255, r, g, b),
    {
        assert(0xFF00_0000u32 == (255u8 as u32) << 24u32) by (bit_vector);
        Color { raw: 0xFF00_0000u32 | ((r as u32) << 16u32) | ((g as u32) << 8u32) | (b as u32) }
    }

    /// A color from its alpha, red, green and blue channels.
    pub fn from_argb(a: u8, r: u8, g: u8, b: u8) -> (c: Color)
        ensures
            c.raw == pack_argb(a, r, g, b),
    {
        Color { raw: ((a as u32) << 24u32) | ((r as u32) << 16u32) | ((g as u32) << 8u32) | (b as u32) }
    }

    /// `fg` composited over `bg`.
    pub fn blend(fg: Color, bg: Color) -> (c: Color)
        ensures
            c.raw == blend_over_spec(bg.raw, fg.raw),
    {
        bg.blend_over(fg)
    }

    /// The red channel.
    pub fn r(self) -> (v: u8)
        ensures
            v == red_of(self.raw),
    {
        ((self.raw >> 16u32) & 0xFFu32) as u8
    }

    /// The green channel.
    pub fn g(self) -> (v: u8)
        ensures
            v == green_of(self.raw),
    {
        ((self.raw >> 8u32) & 0xFFu32) as u8
    }

    /// The blue channel.
    pub fn b(self) -> (v: u8)
        ensures
            v == blue_of(self.raw),
    {
        (self.raw & 0xFFu32) as u8
    }

    /// The alpha channel.
    pub fn a(self) -> (v: u8)
        ensures
            v == alpha_of(self.raw),
    {
        ((self.raw >> 24u32) & 0xFFu32) as u8
    }

    /// Interpolates linearly, channel by channel (alpha included), from this
    /// color to `other` at progress `t` out of 256; a progress above 256
    /// counts as 256.
    pub fn lerp(self, other: Color, t: u16) -> (c: Color)
        ensures
            c.raw == lerp_spec(self.raw, other.raw, t),
    {
        let t: u32 = if t < 256u16 { t as u32 } else { 256u32 };
        let inv_t: u32 = 256 - t;
        let r = lerp_u8(self.r(), other.r(), t, inv_t);
        let g = lerp_u8(self.g(), other.g(), t, inv_t);
        let b = lerp_u8(self.b(), other.b(), t, inv_t);
        let a = lerp_u8(self.a(), other.a(), t, inv_t);
        Color::from_argb(a, r, g, b)
    }

    /// Alpha-composites `fg` over this color (the background).
    pub fn blend_over(self, fg: Color) -> (c: Color)
        ensures
            c.raw == blend_over_spec(self.raw, fg.raw),
    {
        let alpha: u32 = fg.a() as u32;
        if alpha == 255 {
            return fg;
        }
        if alpha == 0 {
            return self;
        }
        let inv_alpha: u32 = 255 - alpha;
        let r = blend_u8(fg.r(), self.r(), alpha, inv_alpha);
        let g = blend_u8(fg.g(), self.g(), alpha, inv_alpha);
        let b = blend_u8(fg.b(), self.b(), alpha, inv_alpha);
        Color::from_rgb(r, g, b)
    }
}

fn lerp_u8(from: u8, to: u8, t: u32, inv_t: u32) -> (v: u8)
    requires
        t <= 256,
        inv_t == 256 - t,
    ensures
        v == lerp_channel(from, to, t as int),
{
    assert(from as u32 * inv_t <= 255 * 256) by (nonlinear_arith)
        requires from <= 255, inv_t <= 256;
    assert(to as u32 * t <= 255 * 256) by (nonlinear_arith)
        requires to <= 255, t <= 256;
    assert(from as u32 * inv_t + to as u32 * t <= 255 * 256) by (nonlinear_arith)
        requires from <= 255, to <= 255, t <= 256, inv_t == 256 - t;
    let sum: u32 = from as u32 * inv_t + to as u32 * t;
    assert(sum >> 8u32 == sum / 256) by (bit_vector);
    (sum >> 8u32) as u8
}

fn blend_u8(fg: u8, bg: u8, alpha: u32, inv_alpha: u32) -> (v: u8)
    requires
        alpha <= 255,
        inv_alpha == 255 - alpha,
    ensures
        v == blend_channel(fg, bg, alpha as u8),
{
    assert(fg as u32 * alpha + bg as u32 * inv_alpha <= 255 * 255) by (nonlinear_arith)
        requires fg <= 255, bg <= 255, alpha <= 255, inv_alpha == 255 - alpha;
    ((fg as u32 * alpha + bg as u32 * inv_alpha) / 255) as u8
}

/// Laws of color packing and blending: channels read back what was packed,
/// an opaque foreground replaces the background, a transparent one leaves
/// it, an opaque mix is always opaque, and interpolation starts at the first
/// color and ends at the second.
pub proof fn lemma_color_laws(bg: u32, fg: u32, from: u32, to: u32)
    ensures
        alpha_of(fg) == 255 ==> blend_over_spec(bg, fg) == fg,
        alpha_of(fg) == 0 ==> blend_over_spec(bg, fg) == bg,
        alpha_of(fg) != 0 ==> alpha_of(blend_over_spec(bg, fg)) == 255 || blend_over_spec(bg, fg) == fg,
        lerp_spec(from, to, 0) == from,
        forall|t: u16| t >= 256 ==> #[trigger] lerp_spec(from, to, t) == to,
{
    lemma_channels_then_pack(from);
    lemma_channels_then_pack(to);
    let a = alpha_of(fg);
    if a != 0 && a != 255 {
        lemma_pack_then_channels(
            255,
            blend_channel(red_of(fg), red_of(bg), a),
            blend_channel(green_of(fg), green_of(bg), a),
            blend_channel(blue_of(fg), blue_of(bg), a),
        );
    }
    assert forall|t: u16| t >= 256 implies #[trigger] lerp_spec(from, to, t) == to by {
        assert(forall|x: u8, y: u8| #[trigger] lerp_channel(x, y, 256) == y);
    }
    assert(forall|x: u8, y: u8| #[trigger] lerp_channel(x, y, 0) == x);
}

} // verus!
