//! The picture viewer: a gallery of three generated 160 by 100 pictures,
//! shown one at a time, at one or two times their size, through a color
//! filter.
use vstd::prelude::*;
use crate::color::{blue_of, green_of, lerp_spec, pack_argb, red_of, Color};
use crate::input::DecodedKey;
use crate::chars::chars_of;
use crate::framebuffer::Framebuffer;
use crate::render::{clipped, drawn_over, inner, near};
use crate::scene::{
    add_fill, add_label, add_outline, add_text, clip_to, half, half_of, paint, painted, scene_ok, sfill, shapes_view,
    soutline, stext, Shape, ShapeV,
};

verus! {

/// The gallery pictures' width.
pub const ART_WIDTH: usize = 160;

/// The gallery pictures' height.
pub const ART_HEIGHT: usize = 100;

/// The color filter pictures are shown through.
#[derive(Debug, Clone, Copy, PartialEq, Eq, Structural)]
pub enum FilterMode {
    Original,
    Grayscale,
    Invert,
    Sepia,
}

/// A picture: its title, size and pixels row by row.
pub struct ImageItem {
    pub title: &'static str,
    pub width: usize,
    pub height: usize,
    pub pixels: Vec<u32>,
}

/// The viewer's state.
pub struct ImageViewerApp {
    pub gallery: Vec<ImageItem>,
    pub current_idx: usize,
    /// 1 or 2.
    pub zoom: usize,
    pub filter: FilterMode,
}

/// An opaque color from its channels.
pub open spec fn rgb(r: int, g: int, b: int) -> u32 {
    pack_argb(255, r as u8, g as u8, b as u8)
}

/// `v` held to at most 255.
pub open spec fn cap255(v: int) -> int {
    if v < 255 { v } else { 255 }
}

/// The filter after `f` in the cycle off, gray, invert, sepia.
pub open spec fn next_filter(f: FilterMode) -> FilterMode {
    match f {
        FilterMode::Original => FilterMode::Grayscale,
        FilterMode::Grayscale => FilterMode::Invert,
        FilterMode::Invert => FilterMode::Sepia,
        FilterMode::Sepia => FilterMode::Original,
    }
}

/// The color `raw` shows through filter `f` (an opaque color unless the
/// filter is off): gray by weights 77, 150, 29 out of 256; each channel
/// inverted; or sepia by the usual weights in thousandths, capped at 255.
pub open spec fn filtered(raw: u32, f: FilterMode) -> u32 {
    let r = red_of(raw) as int;
    let g = green_of(raw) as int;
    let b = blue_of(raw) as int;
    match f {
        FilterMode::Original => raw,
        FilterMode::Grayscale => {
            let gray = (r * 77 + g * 150 + b * 29) / 256;
            rgb(gray, gray, gray)
        },
        FilterMode::Invert => rgb(255 - r, 255 - g, 255 - b),
        FilterMode::Sepia => rgb(
            cap255((r * 393 + g * 769 + b * 189) / 1000),
            cap255((r * 349 + g * 686 + b * 168) / 1000),
            cap255((r * 272 + g * 534 + b * 131) / 1000),
        ),
    }
}

/// The color `c` through filter `f`.
pub fn apply_filter(c: Color, f: FilterMode) -> (d: Color)
    ensures
        d.raw == filtered(c.raw, f),
{
    match f {
        FilterMode::Original => c,
        FilterMode::Grayscale => {
            let sum: u16 = c.r() as u16 * 77 + c.g() as u16 * 150 + c.b() as u16 * 29;
            assert(sum >> 8 == sum / 256) by (bit_vector);
            let gray = (sum >> 8) as u8;
            Color::from_rgb(gray, gray, gray)
        },
        FilterMode::Invert => Color::from_rgb(255 - c.r(), 255 - c.g(), 255 - c.b()),
        FilterMode::Sepia => {
            let r = c.r() as u32;
            let g = c.g() as u32;
            let b = c.b() as u32;
            let sr = (r * 393 + g * 769 + b * 189) / 1000;
            let sg = (r * 349 + g * 686 + b * 168) / 1000;
            let sb = (r * 272 + g * 534 + b * 131) / 1000;
            Color::from_rgb(
                (if sr < 255 { sr } else { 255 }) as u8,
                (if sg < 255 { sg } else { 255 }) as u8,
                (if sb < 255 { sb } else { 255 }) as u8,
            )
        },
    }
}

/// The crest's background at row `y`: navy fading to steel blue downwards.
pub open spec fn crest_background(y: int) -> u32 {
    lerp_spec(rgb(15, 23, 42), rgb(30, 58, 95), ((y * 256) / 100) as u16)
}

/// Whether `(x, y)` is on the crest's stylized M: two pillars and two
/// chevrons meeting in the middle.
pub open spec fn on_crest_letter(x: int, y: int) -> bool {
    let row = y - 38;
    &&& 0 <= row < 24
    &&& {
        ||| (64 <= x < 68)
        ||| (92 <= x < 96)
        ||| (row <= 12 && ((64 + row <= x < 68 + row) || (92 - row <= x < 96 - row)))
    }
}

/// The crest picture's pixel at `(x, y)`: the letter in sky blue over a
/// gold ring (squared distance 34² to 38² from the center) and a darker
/// inner ring (32² to 34²) over the background.
pub open spec fn crest_pixel(x: int, y: int) -> u32 {
    let d = (x - 80) * (x - 80) + (y - 50) * (y - 50);
    if on_crest_letter(x, y) { rgb(56, 189, 248) }
    else if 34 * 34 <= d <= 38 * 38 { rgb(251, 191, 36) }
    else if 32 * 32 <= d < 34 * 34 { rgb(180, 83, 9) }
    else { crest_background(y) }
}

/// The sunset picture's pixel at `(x, y)`: above the horizon (row 60) an
/// indigo-to-magenta sky; below it a dark floor with cyan lines at five
/// depths and pink perspective lines; over both a striped sun of radius 24
/// centered at (80, 50), shading from yellow to red downwards.
pub open spec fn sunset_pixel(x: int, y: int) -> u32 {
    let sd = (x - 80) * (x - 80) + (y - 50) * (y - 50);
    let in_sun = 56 <= x < 104 && 26 <= y < 74 && sd <= 576 && !(y > 50 && (y % 4 == 0 || y % 4 == 1));
    if in_sun {
        lerp_spec(rgb(253, 224, 71), rgb(239, 68, 68), (((y - 26) * 256) / 48) as u16)
    } else if y < 60 {
        lerp_spec(rgb(24, 16, 38), rgb(192, 38, 211), ((y * 256) / 60) as u16)
    } else {
        let gy = y - 60;
        let dx = if x >= 80 { x - 80 } else { 80 - x };
        if dx == gy / 2 || dx == gy || dx == gy * 2 { rgb(244, 63, 94) }
        else if gy == 4 || gy == 10 || gy == 18 || gy == 28 || gy == 38 { rgb(56, 189, 248) }
        else { rgb(15, 10, 25) }
    }
}

/// Whether star `i` of the nebula picture (of 40) lands on `(x, y)`.
pub open spec fn star_at(i: int, x: int, y: int) -> bool {
    (i * 37 + 13) % 160 == x && (i * 53 + 7) % 100 == y
}

/// The nebula's cloud at `(x, y)`: a purple core inside the ellipse with
/// half-axes 40 and 25 around (80, 50), a blue cloud inside the one twice
/// as large, the dark void outside.
pub open spec fn cloud_pixel(x: int, y: int) -> u32 {
    let e = 625 * (x - 80) * (x - 80) + 1600 * (y - 50) * (y - 50);
    if e < 1000000 { rgb(168, 85, 247) } else if e < 4000000 { rgb(37, 99, 235) } else { rgb(10, 15, 30) }
}

/// The nebula picture's pixel at `(x, y)`: white where one of its 40 stars
/// lands, the cloud elsewhere.
pub open spec fn nebula_pixel(x: int, y: int) -> u32 {
    if exists|i: int| 0 <= i < 40 && #[trigger] star_at(i, x, y) { 0xFFFF_FFFFu32 } else { cloud_pixel(x, y) }
}

/// Whether `v` holds a 160 by 100 picture whose pixel at `(x, y)` is
/// `pixel(x, y)`.
pub open spec fn is_art(v: Seq<u32>, pixel: spec_fn(int, int) -> u32) -> bool {
    &&& v.len() == 16000
    &&& forall|i: int| 0 <= i < 16000 ==> #[trigger] v[i] == pixel(i % 160, i / 160)
}

fn crest_pixel_at(x: usize, y: usize) -> (p: u32)
    requires
        x < 160,
        y < 100,
    ensures
        p == crest_pixel(x as int, y as int),
{
    let xi = x as i64;
    let yi = y as i64;
    let dx = xi - 80;
    let dy = yi - 50;
    assert(0 <= dx * dx <= 6400 && 0 <= dy * dy <= 2500) by (nonlinear_arith)
        requires -80 <= dx < 80, -50 <= dy < 50;
    let d = dx * dx + dy * dy;
    let row = yi - 38;
    let on_letter = 0 <= row && row < 24 && ((64 <= xi && xi < 68) || (92 <= xi && xi < 96)
        || (row <= 12 && ((64 + row <= xi && xi < 68 + row) || (92 - row <= xi && xi < 96 - row))));
    if on_letter {
        Color::from_rgb(56, 189, 248).to_u32()
    } else if 34 * 34 <= d && d <= 38 * 38 {
        Color::from_rgb(251, 191, 36).to_u32()
    } else if 32 * 32 <= d && d < 34 * 34 {
        Color::from_rgb(180, 83, 9).to_u32()
    } else {
        let t = ((y * 256) / 100) as u16;
        Color::from_rgb(15, 23, 42).lerp(Color::from_rgb(30, 58, 95), t).to_u32()
    }
}

fn sunset_pixel_at(x: usize, y: usize) -> (p: u32)
    requires
        x < 160,
        y < 100,
    ensures
        p == sunset_pixel(x as int, y as int),
{
    let xi = x as i64;
    let yi = y as i64;
    let dx = xi - 80;
    let dy = yi - 50;
    assert(0 <= dx * dx <= 6400 && 0 <= dy * dy <= 2500) by (nonlinear_arith)
        requires -80 <= dx < 80, -50 <= dy < 50;
    let sd = dx * dx + dy * dy;
    let in_sun = 56 <= xi && xi < 104 && 26 <= yi && yi < 74 && sd <= 576 && !(yi > 50 && (yi % 4 == 0 || yi % 4 == 1));
    if in_sun {
        let st = (((yi - 26) * 256) / 48) as u16;
        Color::from_rgb(253, 224, 71).lerp(Color::from_rgb(239, 68, 68), st).to_u32()
    } else if y < 60 {
        let t = ((y * 256) / 60) as u16;
        Color::from_rgb(24, 16, 38).lerp(Color::from_rgb(192, 38, 211), t).to_u32()
    } else {
        let gy = yi - 60;
        let dx = if xi >= 80 { xi - 80 } else { 80 - xi };
        if dx == gy / 2 || dx == gy || dx == gy * 2 {
            Color::from_rgb(244, 63, 94).to_u32()
        } else if gy == 4 || gy == 10 || gy == 18 || gy == 28 || gy == 38 {
            Color::from_rgb(56, 189, 248).to_u32()
        } else {
            Color::from_rgb(15, 10, 25).to_u32()
        }
    }
}

fn cloud_pixel_at(x: usize, y: usize) -> (p: u32)
    requires
        x < 160,
        y < 100,
    ensures
        p == cloud_pixel(x as int, y as int),
{
    let xi = x as i64;
    let yi = y as i64;
    let dx = xi - 80;
    let dy = yi - 50;
    assert(0 <= dx * dx <= 6400 && 0 <= dy * dy <= 2500) by (nonlinear_arith)
        requires -80 <= dx < 80, -50 <= dy < 50;
    let dx2 = dx * dx;
    let dy2 = dy * dy;
    let e = 625 * dx2 + 1600 * dy2;
    assert(e == 625 * (x - 80) * (x - 80) + 1600 * (y - 50) * (y - 50)) by (nonlinear_arith)
        requires e == 625 * dx2 + 1600 * dy2, dx2 == dx * dx, dy2 == dy * dy, dx == x - 80, dy == y - 50;
    if e < 1000000 {
        Color::from_rgb(168, 85, 247).to_u32()
    } else if e < 4000000 {
        Color::from_rgb(37, 99, 235).to_u32()
    } else {
        Color::from_rgb(10, 15, 30).to_u32()
    }
}

/// The crest picture ("Mouros OS 64-Bit Crest").
fn generate_mouros_logo_art() -> (v: Vec<u32>)
    ensures
        is_art(v@, |x: int, y: int| crest_pixel(x, y)),
{
    let mut v: Vec<u32> = Vec::new();
    let mut y: usize = 0;
    while y < 100
        invariant
            y <= 100,
            v@.len() == y * 160,
            forall|i: int| 0 <= i < v@.len() ==> #[trigger] v@[i] == crest_pixel(i % 160, i / 160),
        decreases 100 - y,
    {
        let mut x: usize = 0;
        while x < 160
            invariant
                y < 100,
                x <= 160,
                v@.len() == y * 160 + x,
                forall|i: int| 0 <= i < v@.len() ==> #[trigger] v@[i] == crest_pixel(i % 160, i / 160),
            decreases 160 - x,
        {
            let p = crest_pixel_at(x, y);
            proof {
                let i = (y * 160 + x) as int;
                assert(i % 160 == x && i / 160 == y) by (nonlinear_arith) requires i == y * 160 + x, x < 160;
            }
            v.push(p);
            x = x + 1;
        }
        y = y + 1;
    }
    v
}

/// The sunset picture ("Retro Synthwave Sunset").
fn generate_synthwave_art() -> (v: Vec<u32>)
    ensures
        is_art(v@, |x: int, y: int| sunset_pixel(x, y)),
{
    let mut v: Vec<u32> = Vec::new();
    let mut y: usize = 0;
    while y < 100
        invariant
            y <= 100,
            v@.len() == y * 160,
            forall|i: int| 0 <= i < v@.len() ==> #[trigger] v@[i] == sunset_pixel(i % 160, i / 160),
        decreases 100 - y,
    {
        let mut x: usize = 0;
        while x < 160
            invariant
                y < 100,
                x <= 160,
                v@.len() == y * 160 + x,
                forall|i: int| 0 <= i < v@.len() ==> #[trigger] v@[i] == sunset_pixel(i % 160, i / 160),
            decreases 160 - x,
        {
            let p = sunset_pixel_at(x, y);
            proof {
                let i = (y * 160 + x) as int;
                assert(i % 160 == x && i / 160 == y) by (nonlinear_arith) requires i == y * 160 + x, x < 160;
            }
            v.push(p);
            x = x + 1;
        }
        y = y + 1;
    }
    v
}

/// The nebula picture ("Deep Space Nebula"): the cloud, then 40 stars.
fn generate_nebula_art() -> (v: Vec<u32>)
    ensures
        is_art(v@, |x: int, y: int| nebula_pixel(x, y)),
{
    let mut v: Vec<u32> = Vec::new();
    let mut y: usize = 0;
    while y < 100
        invariant
            y <= 100,
            v@.len() == y * 160,
            forall|i: int| 0 <= i < v@.len() ==> #[trigger] v@[i] == cloud_pixel(i % 160, i / 160),
        decreases 100 - y,
    {
        let mut x: usize = 0;
        while x < 160
            invariant
                y < 100,
                x <= 160,
                v@.len() == y * 160 + x,
                forall|i: int| 0 <= i < v@.len() ==> #[trigger] v@[i] == cloud_pixel(i % 160, i / 160),
            decreases 160 - x,
        {
            let p = cloud_pixel_at(x, y);
            proof {
                let i = (y * 160 + x) as int;
                assert(i % 160 == x && i / 160 == y) by (nonlinear_arith) requires i == y * 160 + x, x < 160;
            }
            v.push(p);
            x = x + 1;
        }
        y = y + 1;
    }
    let mut k: usize = 0;
    while k < 40
        invariant
            k <= 40,
            v@.len() == 16000,
            forall|i: int| 0 <= i < 16000 ==> #[trigger] v@[i] == if exists|j: int| 0 <= j < k && #[trigger] star_at(j, i % 160, i / 160) {
                0xFFFF_FFFFu32
            } else {
                cloud_pixel(i % 160, i / 160)
            },
        decreases 40 - k,
    {
        let sx = (k * 37 + 13) % 160;
        let sy = (k * 53 + 7) % 100;
        let idx = sy * 160 + sx;
        proof {
            assert(idx % 160 == sx && idx / 160 == sy) by (nonlinear_arith) requires idx == sy * 160 + sx, sx < 160;
        }
        let ghost before = v@;
        v.set(idx, 0xFFFF_FFFFu32);
        assert forall|i: int| 0 <= i < 16000 implies #[trigger] v@[i] == if exists|j: int| 0 <= j < k + 1 && #[trigger] star_at(j, i % 160, i / 160) {
            0xFFFF_FFFFu32
        } else {
            cloud_pixel(i % 160, i / 160)
        } by {
            if i == idx {
                assert(star_at(k as int, i % 160, i / 160));
            } else {
                assert(v@[i] == before[i]);
                if exists|j: int| 0 <= j < k + 1 && #[trigger] star_at(j, i % 160, i / 160) {
                    let j = choose|j: int| 0 <= j < k + 1 && #[trigger] star_at(j, i % 160, i / 160);
                    if j == k {
                        assert(i % 160 == sx && i / 160 == sy);
                        assert(i == idx) by (nonlinear_arith)
                            requires i % 160 == sx, i / 160 == sy, idx == sy * 160 + sx, 0 <= i;
                    }
                }
            }
        }
        k = k + 1;
    }
    v
}

impl ImageViewerApp {
    /// The gallery is not empty and the index points into it; the zoom is 1 or 2.
    pub open spec fn wf(&self) -> bool {
        &&& self.gallery@.len() > 0
        &&& self.current_idx < self.gallery@.len()
        &&& (self.zoom == 1 || self.zoom == 2)
    }

    /// The viewer on the first of the three pictures, unzoomed, unfiltered.
    pub fn new() -> (app: ImageViewerApp)
        ensures
            app.wf(),
            app.gallery@.len() == 3,
            app.gallery@[0].title@ == "Mouros OS 64-Bit Crest"@,
            app.gallery@[1].title@ == "Retro Synthwave Sunset"@,
            app.gallery@[2].title@ == "Deep Space Nebula"@,
            forall|i: int| 0 <= i < 3 ==> #[trigger] app.gallery@[i].width == 160 && app.gallery@[i].height == 100,
            is_art(app.gallery@[0].pixels@, |x: int, y: int| crest_pixel(x, y)),
            is_art(app.gallery@[1].pixels@, |x: int, y: int| sunset_pixel(x, y)),
            is_art(app.gallery@[2].pixels@, |x: int, y: int| nebula_pixel(x, y)),
            app.current_idx == 0,
            app.zoom == 1,
            app.filter == FilterMode::Original,
    {
        let img1 = generate_mouros_logo_art();
        let img2 = generate_synthwave_art();
        let img3 = generate_nebula_art();
        let gallery = vec![
            ImageItem { title: "Mouros OS 64-Bit Crest", width: 160, height: 100, pixels: img1 },
            ImageItem { title: "Retro Synthwave Sunset", width: 160, height: 100, pixels: img2 },
            ImageItem { title: "Deep Space Nebula", width: 160, height: 100, pixels: img3 },
        ];
        ImageViewerApp { gallery, current_idx: 0, zoom: 1, filter: FilterMode::Original }
    }

    /// The next picture (after the last, the first).
    pub fn next(&mut self)
        requires
            old(self).wf(),
        ensures
            final(self).wf(),
            final(self).current_idx == (old(self).current_idx + 1) % (old(self).gallery@.len() as int),
            final(self).gallery == old(self).gallery,
            final(self).zoom == old(self).zoom,
            final(self).filter == old(self).filter,
    {
        let n = self.gallery.len();
        self.current_idx = (self.current_idx + 1) % n;
    }

    /// The previous picture (before the first, the last).
    pub fn prev(&mut self)
        requires
            old(self).wf(),
        ensures
            final(self).wf(),
            final(self).current_idx == if old(self).current_idx == 0 {
                old(self).gallery@.len() - 1
            } else {
                old(self).current_idx - 1
            },
            final(self).gallery == old(self).gallery,
            final(self).zoom == old(self).zoom,
            final(self).filter == old(self).filter,
    {
        if self.current_idx == 0 {
            self.current_idx = self.gallery.len() - 1;
        } else {
            self.current_idx = self.current_idx - 1;
        }
    }

    /// The window title.
    pub fn title(&self) -> (t: &'static str)
        ensures
            t@ == "Mouros Image Viewer"@,
    {
        "Mouros Image Viewer"
    }

    /// Switches between 1x and 2x.
    fn toggle_zoom(&mut self)
        ensures
            final(self).zoom == if old(self).zoom == 1 { 2usize } else { 1usize },
            final(self).gallery == old(self).gallery,
            final(self).current_idx == old(self).current_idx,
            final(self).filter == old(self).filter,
    {
        self.zoom = if self.zoom == 1 { 2 } else { 1 };
    }

    /// Moves to the next filter.
    fn cycle_filter(&mut self)
        ensures
            final(self).filter == next_filter(old(self).filter),
            final(self).gallery == old(self).gallery,
            final(self).current_idx == old(self).current_idx,
            final(self).zoom == old(self).zoom,
    {
        self.filter = match self.filter {
            FilterMode::Original => FilterMode::Grayscale,
            FilterMode::Grayscale => FilterMode::Invert,
            FilterMode::Invert => FilterMode::Sepia,
            FilterMode::Sepia => FilterMode::Original,
        };
    }

    /// Reacts to a key: N next, P previous, Z zoom, F filter.
    pub fn on_key(&mut self, key: DecodedKey)
        requires
            old(self).wf(),
        ensures
            final(self).wf(),
            final(self).gallery == old(self).gallery,
            match key {
                DecodedKey::Unicode(c) => if c == 'n' || c == 'N' {
                    final(self).current_idx == (old(self).current_idx + 1) % (old(self).gallery@.len() as int)
                        && final(self).zoom == old(self).zoom && final(self).filter == old(self).filter
                } else if c == 'p' || c == 'P' {
                    final(self).current_idx == (if old(self).current_idx == 0 { old(self).gallery@.len() - 1 } else { old(self).current_idx - 1 })
                        && final(self).zoom == old(self).zoom && final(self).filter == old(self).filter
                } else if c == 'z' || c == 'Z' {
                    final(self).zoom == (if old(self).zoom == 1 { 2usize } else { 1usize })
                        && final(self).current_idx == old(self).current_idx && final(self).filter == old(self).filter
                } else if c == 'f' || c == 'F' {
                    final(self).filter == next_filter(old(self).filter)
                        && final(self).current_idx == old(self).current_idx && final(self).zoom == old(self).zoom
                } else {
                    final(self).current_idx == old(self).current_idx && final(self).zoom == old(self).zoom
                        && final(self).filter == old(self).filter
                },
                DecodedKey::RawKey(_) => final(self).current_idx == old(self).current_idx
                    && final(self).zoom == old(self).zoom && final(self).filter == old(self).filter,
            },
    {
        match key {
            DecodedKey::Unicode(c) => {
                if c == 'n' || c == 'N' {
                    self.next();
                } else if c == 'p' || c == 'P' {
                    self.prev();
                } else if c == 'z' || c == 'Z' {
                    self.toggle_zoom();
                } else if c == 'f' || c == 'F' {
                    self.cycle_filter();
                }
            },
            DecodedKey::RawKey(_) => {},
        }
    }

    /// Reacts to a left click on the toolbar (heights 6 to 28): previous
    /// (10 to 55), next (60 to 105), zoom (115 to 170), filter (180 to 250).
    pub fn on_mouse_click(&mut self, x: isize, y: isize, left: bool)
        requires
            old(self).wf(),
        ensures
            final(self).wf(),
            final(self).gallery == old(self).gallery,
            if left && 6 <= y <= 28 && 10 <= x <= 55 {
                final(self).current_idx == (if old(self).current_idx == 0 { old(self).gallery@.len() - 1 } else { old(self).current_idx - 1 })
                    && final(self).zoom == old(self).zoom && final(self).filter == old(self).filter
            } else if left && 6 <= y <= 28 && 60 <= x <= 105 {
                final(self).current_idx == (old(self).current_idx + 1) % (old(self).gallery@.len() as int)
                    && final(self).zoom == old(self).zoom && final(self).filter == old(self).filter
            } else if left && 6 <= y <= 28 && 115 <= x <= 170 {
                final(self).zoom == (if old(self).zoom == 1 { 2usize } else { 1usize })
                    && final(self).current_idx == old(self).current_idx && final(self).filter == old(self).filter
            } else if left && 6 <= y <= 28 && 180 <= x <= 250 {
                final(self).filter == next_filter(old(self).filter)
                    && final(self).current_idx == old(self).current_idx && final(self).zoom == old(self).zoom
            } else {
                final(self).current_idx == old(self).current_idx && final(self).zoom == old(self).zoom
                    && final(self).filter == old(self).filter
            },
    {
        if !left {
            return;
        }
        if y >= 6 && y <= 28 {
            if x >= 10 && x <= 55 {
                self.prev();
            } else if x >= 60 && x <= 105 {
                self.next();
            } else if x >= 115 && x <= 170 {
                self.toggle_zoom();
            } else if x >= 180 && x <= 250 {
                self.cycle_filter();
            }
        }
    }
}


/// A flat toolbar button at `(x, y)`, `w` by `h`: dark face, slate
/// outline, and its label `t` (at most 4096 characters of it) centred.
pub open spec fn tool_btn(x: int, y: int, w: int, h: int, t: Seq<char>) -> Seq<ShapeV> {
    let l = clip_to(t, 0x1000);
    seq![
        sfill(x, y, w, h, pack_argb(255, 30, 41, 59)),
        soutline(x, y, w, h, pack_argb(255, 71, 85, 105)),
        stext(x + half(w - 8 * l.len()), y + half(h - 8), l, pack_argb(255, 226, 232, 240))
    ]
}

/// Adds `tool_btn(x, y, w, h, text@)`.
fn add_tool_btn(s: &mut Vec<Shape>, x: isize, y: isize, w: usize, h: usize, text: &str)
    requires
        near(x as int),
        near(y as int),
        w <= 0x1000,
        h <= 0x1000,
    ensures
        shapes_view(final(s)@) == shapes_view(old(s)@) + tool_btn(x as int, y as int, w as int, h as int, text@),
        scene_ok(shapes_view(old(s)@)) ==> scene_ok(shapes_view(final(s)@)),
{
    let ghost before = shapes_view(s@);
    add_fill(s, x, y, w, h, Color::from_rgb(30, 41, 59).raw);
    add_outline(s, x, y, w, h, Color::from_rgb(71, 85, 105).raw);
    let t = chars_of(text);
    let t = clipped(t.as_slice(), 0x1000);
    let tx = x + half_of(w as isize - (t.len() * 8) as isize);
    let ty = y + half_of(h as isize - 8);
    add_text(s, tx, ty, t, Color::from_rgb(226, 232, 240).raw);
    assert(shapes_view(s@) =~= before + tool_btn(x as int, y as int, w as int, h as int, text@));
}

impl ImageViewerApp {
    /// The label of the zoom button.
    pub fn zoom_label(&self) -> (t: &'static str)
        ensures
            t@ == if self.zoom == 1 { "ZOOM 1x"@ } else { "ZOOM 2x"@ },
    {
        if self.zoom == 1 { "ZOOM 1x" } else { "ZOOM 2x" }
    }

    /// The label of the filter button.
    pub fn filter_label(&self) -> (t: &'static str)
        ensures
            t@ == match self.filter {
                FilterMode::Original => "FILTER: OFF"@,
                FilterMode::Grayscale => "FILTER: GRAY"@,
                FilterMode::Invert => "FILTER: INV"@,
                FilterMode::Sepia => "FILTER: SEPIA"@,
            },
    {
        match self.filter {
            FilterMode::Original => "FILTER: OFF",
            FilterMode::Grayscale => "FILTER: GRAY",
            FilterMode::Invert => "FILTER: INV",
            FilterMode::Sepia => "FILTER: SEPIA",
        }
    }

    /// The viewport's height in a client area `bh` high.
    pub open spec fn vp_height(bh: int) -> int {
        if bh >= 60 { bh - 60 } else { 0 }
    }

    /// Where the current picture's top left corner goes in the client area
    /// at `(bx, by)`, `bw` by `bh`: centred in the viewport, at least four
    /// pixels in.
    pub open spec fn picture_origin(&self, bx: int, by: int, bw: int, bh: int) -> (int, int) {
        let img = self.gallery@[self.current_idx as int];
        let off_x = half((bw - 20) - img.width * self.zoom);
        let off_y = half(Self::vp_height(bh) - img.height * self.zoom);
        (bx + 10 + if off_x > 4 { off_x } else { 4 }, by + 34 + if off_y > 4 { off_y } else { 4 })
    }

    /// Pixel `(ix, iy)` of the current picture, through the filter: a two by
    /// two square at 2x, and at 1x a single pixel when it lies inside the
    /// viewport's frame.
    pub open spec fn pixel_shapes(&self, bx: int, by: int, bw: int, bh: int, iy: int, ix: int) -> Seq<ShapeV> {
        let img = self.gallery@[self.current_idx as int];
        let c = filtered(img.pixels@[iy * img.width + ix], self.filter);
        let o = self.picture_origin(bx, by, bw, bh);
        let px = o.0 + ix * self.zoom;
        let py = o.1 + iy * self.zoom;
        if self.zoom == 1 {
            if px >= bx + 11 && px < bx + 10 + (bw - 20) - 1 && py >= by + 35 && py < by + 34 + Self::vp_height(bh) - 1 {
                seq![sfill(px, py, 1, 1, c)]
            } else {
                Seq::empty()
            }
        } else {
            seq![sfill(px, py, 2, 2, c)]
        }
    }

    /// Pixels `0..k` of row `iy`.
    pub open spec fn row_shapes(&self, bx: int, by: int, bw: int, bh: int, iy: int, k: int) -> Seq<ShapeV>
        decreases k,
    {
        if k <= 0 {
            Seq::empty()
        } else {
            self.row_shapes(bx, by, bw, bh, iy, k - 1) + self.pixel_shapes(bx, by, bw, bh, iy, k - 1)
        }
    }

    /// Rows `0..k` of the current picture.
    pub open spec fn rows_upto(&self, bx: int, by: int, bw: int, bh: int, k: int) -> Seq<ShapeV>
        decreases k,
    {
        if k <= 0 {
            Seq::empty()
        } else {
            self.rows_upto(bx, by, bw, bh, k - 1)
                + self.row_shapes(bx, by, bw, bh, k - 1, self.gallery@[self.current_idx as int].width as int)
        }
    }

    /// The backdrop, the toolbar (previous, next, zoom, filter) and the
    /// framed viewport.
    pub open spec fn chrome_scene(&self, bx: int, by: int, bw: int, bh: int) -> Seq<ShapeV> {
        let zl = if self.zoom == 1 { "ZOOM 1x"@ } else { "ZOOM 2x"@ };
        let fl = match self.filter {
            FilterMode::Original => "FILTER: OFF"@,
            FilterMode::Grayscale => "FILTER: GRAY"@,
            FilterMode::Invert => "FILTER: INV"@,
            FilterMode::Sepia => "FILTER: SEPIA"@,
        };
        seq![sfill(bx, by, bw, bh, pack_argb(255, 15, 23, 42))]
            + tool_btn(bx + 10, by + 6, 45, 22, "< PREV"@)
            + tool_btn(bx + 60, by + 6, 45, 22, "NEXT >"@)
            + tool_btn(bx + 115, by + 6, 55, 22, zl)
            + tool_btn(bx + 180, by + 6, 80, 22, fl)
            + seq![
                sfill(bx + 10, by + 34, bw - 20, Self::vp_height(bh), pack_argb(255, 10, 15, 29)),
                soutline(bx + 10, by + 34, bw - 20, Self::vp_height(bh), pack_argb(255, 51, 65, 85))
            ]
    }

    /// What the viewer shows in the client area at `(bx, by)`, `bw` by
    /// `bh`: the chrome, the current picture row by row, and the footer with
    /// the title and the format.
    pub open spec fn scene_spec(&self, bx: int, by: int, bw: int, bh: int) -> Seq<ShapeV> {
        let img = self.gallery@[self.current_idx as int];
        self.chrome_scene(bx, by, bw, bh)
            + self.rows_upto(bx, by, bw, bh, img.height as int)
            + seq![
                stext(bx + 14, by + bh - 20, img.title@, pack_argb(255, 56, 189, 248)),
                stext(bx + bw - 184 - 14, by + bh - 20, "160x100 32bpp TrueColor"@, pack_argb(255, 148, 163, 184))
            ]
    }

    /// Adds `chrome_scene`.
    fn add_chrome(&self, s: &mut Vec<Shape>, bx: isize, by: isize, bw: usize, bh: usize)
        requires
            self.wf(),
            inner(bx as int),
            inner(by as int),
            20 <= bw <= 0x1_0000,
            bh <= 0x1_0000,
            scene_ok(shapes_view(old(s)@)),
        ensures
            shapes_view(final(s)@) == shapes_view(old(s)@) + self.chrome_scene(bx as int, by as int, bw as int, bh as int),
            scene_ok(shapes_view(final(s)@)),
    {
        let ghost before = shapes_view(s@);
        add_fill(s, bx, by, bw, bh, Color::from_rgb(15, 23, 42).raw);
        let tb_y = by + 6;
        add_tool_btn(s, bx + 10, tb_y, 45, 22, "< PREV");
        add_tool_btn(s, bx + 60, tb_y, 45, 22, "NEXT >");
        add_tool_btn(s, bx + 115, tb_y, 55, 22, self.zoom_label());
        add_tool_btn(s, bx + 180, tb_y, 80, 22, self.filter_label());
        let vp_h: usize = if bh >= 60 { bh - 60 } else { 0 };
        add_fill(s, bx + 10, by + 34, bw - 20, vp_h, Color::from_rgb(10, 15, 29).raw);
        add_outline(s, bx + 10, by + 34, bw - 20, vp_h, Color::from_rgb(51, 65, 85).raw);
        assert(shapes_view(s@) =~= before + self.chrome_scene(bx as int, by as int, bw as int, bh as int));
    }

    /// Adds row `iy` of the current picture.
    fn add_row(&self, s: &mut Vec<Shape>, bx: isize, by: isize, bw: usize, bh: usize, img_x: isize, img_y: isize, iy: usize)
        requires
            self.wf(),
            inner(bx as int),
            inner(by as int),
            20 <= bw <= 0x1_0000,
            bh <= 0x1_0000,
            self.gallery@[self.current_idx as int].width <= 0x1000,
            self.gallery@[self.current_idx as int].height <= 0x1000,
            self.gallery@[self.current_idx as int].width * self.gallery@[self.current_idx as int].height
                <= self.gallery@[self.current_idx as int].pixels@.len(),
            iy < self.gallery@[self.current_idx as int].height,
            (img_x as int, img_y as int) == self.picture_origin(bx as int, by as int, bw as int, bh as int),
            near(img_x as int),
            near(img_y as int),
            scene_ok(shapes_view(old(s)@)),
        ensures
            shapes_view(final(s)@) == shapes_view(old(s)@) + self.row_shapes(bx as int, by as int, bw as int, bh as int,
                iy as int, self.gallery@[self.current_idx as int].width as int),
            scene_ok(shapes_view(final(s)@)),
    {
        let ghost before = shapes_view(s@);
        let img = &self.gallery[self.current_idx];
        let zoom = self.zoom;
        let iw = img.width;
        let ih = img.height;
        let vp_x = bx + 10;
        let vp_y = by + 34;
        let vp_w = bw - 20;
        let vp_h: usize = if bh >= 60 { bh - 60 } else { 0 };
        let mut ix: usize = 0;
        while ix < iw
            invariant
                self.wf(),
                img == self.gallery@[self.current_idx as int],
                zoom == self.zoom,
                zoom == 1 || zoom == 2,
                iw == img.width,
                ih == img.height,
                iw <= 0x1000,
                ih <= 0x1000,
                iw * ih <= img.pixels@.len(),
                iy < ih,
                near(img_x as int),
                near(img_y as int),
                (img_x as int, img_y as int) == self.picture_origin(bx as int, by as int, bw as int, bh as int),
                vp_x == bx + 10,
                vp_y == by + 34,
                vp_w == bw - 20,
                vp_h == Self::vp_height(bh as int),
                inner(bx as int),
                inner(by as int),
                vp_w <= 0x1_0000,
                vp_h <= 0x1_0000,
                ix <= iw,
                shapes_view(s@) == before + self.row_shapes(bx as int, by as int, bw as int, bh as int, iy as int, ix as int),
                scene_ok(shapes_view(s@)),
            decreases iw - ix,
        {
            assert(iy * iw + ix < iw * ih && iy * iw <= 0x100_0000) by (nonlinear_arith)
                requires iy < ih, ix < iw, iw <= 0x1000, ih <= 0x1000;
            let p = img.pixels[iy * iw + ix];
            let c = apply_filter(Color::from_raw(p), self.filter);
            let dx: usize = if zoom == 1 { ix } else { 2 * ix };
            let dy: usize = if zoom == 1 { iy } else { 2 * iy };
            assert(dx == ix * zoom && dy == iy * zoom) by (nonlinear_arith)
                requires zoom == 1 || zoom == 2, dx == (if zoom == 1 { ix as int } else { 2 * ix }),
                    dy == (if zoom == 1 { iy as int } else { 2 * iy });
            let px = img_x + dx as isize;
            let py = img_y + dy as isize;
            if zoom == 1 {
                if px >= vp_x + 1 && px < vp_x + vp_w as isize - 1 && py >= vp_y + 1 && py < vp_y + vp_h as isize - 1 {
                    add_fill(s, px, py, 1, 1, c.raw);
                }
            } else {
                add_fill(s, px, py, 2, 2, c.raw);
            }
            ix = ix + 1;
            assert(shapes_view(s@) =~= before + self.row_shapes(bx as int, by as int, bw as int, bh as int, iy as int, ix as int));
        }
    }

    /// Builds `scene_spec`.
    pub fn scene(&self, bx: isize, by: isize, bw: usize, bh: usize) -> (s: Vec<Shape>)
        requires
            self.wf(),
            inner(bx as int),
            inner(by as int),
            20 <= bw <= 0x1_0000,
            bh <= 0x1_0000,
            self.gallery@[self.current_idx as int].width <= 0x1000,
            self.gallery@[self.current_idx as int].height <= 0x1000,
            self.gallery@[self.current_idx as int].width * self.gallery@[self.current_idx as int].height
                <= self.gallery@[self.current_idx as int].pixels@.len(),
        ensures
            shapes_view(s@) == self.scene_spec(bx as int, by as int, bw as int, bh as int),
            scene_ok(shapes_view(s@)),
    {
        let mut s: Vec<Shape> = Vec::new();
        assert(shapes_view(s@) =~= Seq::<ShapeV>::empty());
        self.add_chrome(&mut s, bx, by, bw, bh);
        let ghost chrome = shapes_view(s@);
        let img = &self.gallery[self.current_idx];
        let zoom = self.zoom;
        let vp_w = bw - 20;
        let vp_h: usize = if bh >= 60 { bh - 60 } else { 0 };
        let off_x = half_of(vp_w as isize - (img.width * zoom) as isize);
        let off_y = half_of(vp_h as isize - (img.height * zoom) as isize);
        let img_x = bx + 10 + if off_x > 4 { off_x } else { 4 };
        let img_y = by + 34 + if off_y > 4 { off_y } else { 4 };
        let ih = img.height;
        let mut iy: usize = 0;
        while iy < ih
            invariant
                self.wf(),
                img == self.gallery@[self.current_idx as int],
                ih == img.height,
                img.width <= 0x1000,
                ih <= 0x1000,
                img.width * ih <= img.pixels@.len(),
                inner(bx as int),
                inner(by as int),
                20 <= bw <= 0x1_0000,
                bh <= 0x1_0000,
                near(img_x as int),
                near(img_y as int),
                (img_x as int, img_y as int) == self.picture_origin(bx as int, by as int, bw as int, bh as int),
                iy <= ih,
                shapes_view(s@) == chrome + self.rows_upto(bx as int, by as int, bw as int, bh as int, iy as int),
                scene_ok(shapes_view(s@)),
            decreases ih - iy,
        {
            self.add_row(&mut s, bx, by, bw, bh, img_x, img_y, iy);
            iy = iy + 1;
        }
        let footer_y = by + bh as isize - 20;
        add_label(&mut s, bx + 14, footer_y, img.title, Color::from_rgb(56, 189, 248).raw);
        add_label(&mut s, bx + bw as isize - 184 - 14, footer_y, "160x100 32bpp TrueColor", Color::from_rgb(148, 163, 184).raw);
        assert(shapes_view(s@) =~= self.scene_spec(bx as int, by as int, bw as int, bh as int));
        s
    }

    /// Draws the viewer into the client area at `(bx, by)`, `bw` by `bh`:
    /// exactly the pixels of `scene_spec` (the toolbar, the framed viewport
    /// with the current picture centred in it, at least four pixels in,
    /// each pixel through the filter, at 1x only the pixels inside the
    /// frame, at 2x as two by two squares, and the footer with the title
    /// and format).
    pub fn render(&self, fb: &mut Framebuffer, bx: isize, by: isize, bw: usize, bh: usize)
        requires
            old(fb).wf(),
            self.wf(),
            inner(bx as int),
            inner(by as int),
            20 <= bw <= 0x1_0000,
            bh <= 0x1_0000,
            self.gallery@[self.current_idx as int].width <= 0x1000,
            self.gallery@[self.current_idx as int].height <= 0x1000,
            self.gallery@[self.current_idx as int].width * self.gallery@[self.current_idx as int].height
                <= self.gallery@[self.current_idx as int].pixels@.len(),
        ensures
            drawn_over(*old(fb), *final(fb)),
            final(fb).backbuffer@ == painted(*old(fb), old(fb).backbuffer@, self.scene_spec(bx as int, by as int, bw as int, bh as int)),
    {
        let s = self.scene(bx, by, bw, bh);
        paint(fb, s.as_slice());
    }
}

} // verus!
