//! Desktop windows: their frame geometry, the parts of the frame a point
//! falls on, and the icon a window's title calls for.
use vstd::prelude::*;
use crate::chars::{chars_of, contains_chars, contains_run};
use crate::icons::{draw_icon_16, icon16_shapes, AppIcon};
use crate::color::{pack_argb, Color};
use crate::framebuffer::Framebuffer;
use crate::palette;
use crate::render::{button, drawn_over, gradient_h, raised, rect, shown, sunken};
use crate::scene::{clip_to, half, half_of, lemma_paint_seq, lemma_paint_step, painted, sfill, stext, ShapeV};
use crate::theme::{theme_palette, Theme, ThemeKind};

verus! {

pub const TITLEBAR_HEIGHT: usize = 22;
pub const BORDER_WIDTH: usize = 4;

/// The applications a window can hold.
#[derive(Debug, Clone, Copy, PartialEq, Eq, Structural)]
pub enum AppKind {
    Terminal,
    SysInfo,
    Calculator,
    Notepad,
    Snake,
    Music,
    ImageViewer,
    Settings,
    ElfRunner,
    Doom,
}

/// A window's frame: identity, position, size, state and the application
/// it holds (the host keeps the application itself by the window's id).
#[derive(Debug, Clone, Copy, PartialEq, Eq, Structural)]
pub struct Window {
    pub id: usize,
    pub x: isize,
    pub y: isize,
    pub width: usize,
    pub height: usize,
    pub is_minimized: bool,
    pub is_focused: bool,
    pub kind: AppKind,
}

/// Coordinates and sizes stay far from the integer limits.
pub open spec fn small(v: int) -> bool {
    -0x1000_0000 <= v <= 0x1000_0000
}

/// Whether `(px, py)` lies in the rectangle at `(x, y)` of size `w` by `h`.
pub open spec fn in_box(px: int, py: int, x: int, y: int, w: int, h: int) -> bool {
    x <= px < x + w && y <= py < y + h
}

/// The icon a window title calls for, by the words it contains.
pub open spec fn icon_for_title(t: Seq<char>) -> AppIcon {
    if contains_run(t, "Terminal"@) { AppIcon::Terminal }
    else if contains_run(t, "System"@) || contains_run(t, "SysInfo"@) { AppIcon::SysInfo }
    else if contains_run(t, "Calc"@) { AppIcon::Calculator }
    else if contains_run(t, "Notepad"@) { AppIcon::Notepad }
    else if contains_run(t, "Snake"@) { AppIcon::Snake }
    else if contains_run(t, "Music"@) || contains_run(t, "MP3"@) || contains_run(t, "Chiptune"@) { AppIcon::Music }
    else if contains_run(t, "Image"@) { AppIcon::ImageViewer }
    else if contains_run(t, "Setting"@) { AppIcon::Settings }
    else if contains_run(t, "ELF"@) { AppIcon::ElfRunner }
    else if contains_run(t, "DOOM"@) { AppIcon::Doom }
    else { AppIcon::Terminal }
}

/// Whether `t` contains the word `w`.
fn has_word(t: &[char], w: &str) -> (b: bool)
    ensures
        b == contains_run(t@, w@),
{
    let wv = chars_of(w);
    contains_chars(t, wv.as_slice())
}

/// The icon a window title calls for.
pub fn icon_from_title(title: &str) -> (i: AppIcon)
    ensures
        i == icon_for_title(title@),
{
    let t = chars_of(title);
    let t = t.as_slice();
    if has_word(t, "Terminal") {
        AppIcon::Terminal
    } else if has_word(t, "System") || has_word(t, "SysInfo") {
        AppIcon::SysInfo
    } else if has_word(t, "Calc") {
        AppIcon::Calculator
    } else if has_word(t, "Notepad") {
        AppIcon::Notepad
    } else if has_word(t, "Snake") {
        AppIcon::Snake
    } else if has_word(t, "Music") || has_word(t, "MP3") || has_word(t, "Chiptune") {
        AppIcon::Music
    } else if has_word(t, "Image") {
        AppIcon::ImageViewer
    } else if has_word(t, "Setting") {
        AppIcon::Settings
    } else if has_word(t, "ELF") {
        AppIcon::ElfRunner
    } else if has_word(t, "DOOM") {
        AppIcon::Doom
    } else {
        AppIcon::Terminal
    }
}

impl Window {
    /// Position and size are small.
    pub open spec fn wf(&self) -> bool {
        &&& small(self.x as int)
        &&& small(self.y as int)
        &&& self.width <= 0x1000_0000
        &&& self.height <= 0x1000_0000
    }

    /// Whether `(px, py)` is on the window (never for a minimized one).
    pub open spec fn covers(&self, px: int, py: int) -> bool {
        !self.is_minimized && in_box(px, py, self.x as int, self.y as int, self.width as int, self.height as int)
    }

    /// Whether `(px, py)` is on the title bar (never for a minimized window).
    pub open spec fn on_titlebar(&self, px: int, py: int) -> bool {
        !self.is_minimized && in_box(px, py, self.x as int, self.y as int, self.width as int, 22)
    }

    /// Whether `(px, py)` is on the close button (16 by 14, 20 from the
    /// right edge and 4 from the top).
    pub open spec fn on_close(&self, px: int, py: int) -> bool {
        in_box(px, py, self.x + self.width - 20, self.y + 4, 16, 14)
    }

    /// Whether `(px, py)` is on the minimize button (38 from the right edge).
    pub open spec fn on_minimize(&self, px: int, py: int) -> bool {
        in_box(px, py, self.x + self.width - 38, self.y + 4, 16, 14)
    }

    /// A window that is neither minimized nor focused.
    pub fn new(id: usize, x: isize, y: isize, width: usize, height: usize, kind: AppKind) -> (w: Window)
        ensures
            w == (Window { id, x, y, width, height, is_minimized: false, is_focused: false, kind }),
    {
        Window { id, x, y, width, height, is_minimized: false, is_focused: false, kind }
    }

    /// The client area inside the frame: below the title bar and inside the
    /// 4-pixel border, sizes not below 0.
    pub fn client_bounds(&self) -> (r: (isize, isize, usize, usize))
        requires
            self.wf(),
        ensures
            r.0 == self.x + 4,
            r.1 == self.y + 22,
            r.2 == if self.width >= 8 { self.width - 8 } else { 0 },
            r.3 == if self.height >= 26 { self.height - 26 } else { 0 },
    {
        let cx = self.x + BORDER_WIDTH as isize;
        let cy = self.y + TITLEBAR_HEIGHT as isize;
        let cw = if self.width >= BORDER_WIDTH * 2 { self.width - BORDER_WIDTH * 2 } else { 0 };
        let ch = if self.height >= TITLEBAR_HEIGHT + BORDER_WIDTH { self.height - (TITLEBAR_HEIGHT + BORDER_WIDTH) } else { 0 };
        (cx, cy, cw, ch)
    }

    /// Whether `(px, py)` is on the window.
    pub fn contains(&self, px: isize, py: isize) -> (b: bool)
        requires
            self.wf(),
        ensures
            b == self.covers(px as int, py as int),
    {
        if self.is_minimized {
            return false;
        }
        px >= self.x && px < self.x + self.width as isize && py >= self.y && py < self.y + self.height as isize
    }

    /// Whether `(px, py)` is on the title bar.
    pub fn is_over_titlebar(&self, px: isize, py: isize) -> (b: bool)
        requires
            self.wf(),
        ensures
            b == self.on_titlebar(px as int, py as int),
    {
        if self.is_minimized {
            return false;
        }
        px >= self.x && px < self.x + self.width as isize && py >= self.y && py < self.y + TITLEBAR_HEIGHT as isize
    }

    /// Whether `(px, py)` is on the close button.
    pub fn is_over_close_button(&self, px: isize, py: isize) -> (b: bool)
        requires
            self.wf(),
        ensures
            b == self.on_close(px as int, py as int),
    {
        let btn_x = self.x + self.width as isize - 20;
        let btn_y = self.y + 4;
        px >= btn_x && px < btn_x + 16 && py >= btn_y && py < btn_y + 14
    }

    /// Whether `(px, py)` is on the minimize button.
    pub fn is_over_minimize_button(&self, px: isize, py: isize) -> (b: bool)
        requires
            self.wf(),
        ensures
            b == self.on_minimize(px as int, py as int),
    {
        let btn_x = self.x + self.width as isize - 38;
        let btn_y = self.y + 4;
        px >= btn_x && px < btn_x + 16 && py >= btn_y && py < btn_y + 14
    }
}

/// The six pinstripes of a platinum title bar at `(tx, ty)`, `sw` wide:
/// stripes `0..k`, two pixels apart from row `ty + 3`.
pub open spec fn stripes(tx: int, ty: int, sw: int, k: int) -> Seq<ShapeV>
    decreases k,
{
    if k <= 0 {
        Seq::empty()
    } else {
        stripes(tx, ty, sw, k - 1).push(sfill(tx + 2, ty + 3 + 2 * (k - 1), sw, 1, pack_argb(255, 170, 170, 170)))
    }
}

/// The pixels of the close button's cross, from its top left corner.
pub open spec fn cross_offsets() -> Seq<(isize, isize)> {
    seq![
        (4, 3), (5, 3), (9, 3), (10, 3),
        (5, 4), (6, 4), (8, 4), (9, 4),
        (6, 5), (7, 5), (8, 5),
        (6, 6), (7, 6), (8, 6),
        (5, 7), (6, 7), (8, 7), (9, 7),
        (4, 8), (5, 8), (9, 8), (10, 8)
    ]
}

/// The first `k` pixels of the close button's cross at `(bx, by)`.
pub open spec fn cross_dots(bx: int, by: int, k: int) -> Seq<ShapeV>
    decreases k,
{
    if k <= 0 {
        Seq::empty()
    } else {
        cross_dots(bx, by, k - 1).push(sfill(bx + cross_offsets()[k - 1].0, by + cross_offsets()[k - 1].1, 1, 1,
            palette::RETRO_TEXT))
    }
}

impl Window {
    /// The title bar of a window titled `title` (at most 4096 characters of
    /// it shown) in the theme of kind `kind`: the platinum bar with its
    /// stripes and the centred title on a sunken plate, or the gradient
    /// (the theme's colors when focused, grey otherwise) with the title's
    /// icon and the title.
    pub open spec fn title_bar(&self, title: Seq<char>, kind: ThemeKind) -> Seq<ShapeV> {
        let tx = self.x + 2;
        let ty = self.y + 2;
        let tw = if self.width >= 4 { self.width - 4 } else { 0 };
        let text = clip_to(title, 0x1000);
        if kind == ThemeKind::MacOS9 {
            let sw = if tw >= 4 { tw - 4 } else { 0 };
            let plate_w = 8 * text.len() as int + 12;
            let plate_x = tx + half(tw - plate_w);
            seq![sfill(tx, ty, tw, 18, palette::RETRO_MACOS_PLATINUM)] + stripes(tx, ty, sw, 6) + seq![
                sfill(plate_x, ty + 2, plate_w, 14, palette::RETRO_MACOS_PLATINUM),
                ShapeV::Sunken { x: plate_x, y: ty + 2, w: plate_w, h: 14 },
                stext(plate_x + 6, ty + 5, text, palette::BLACK)
            ]
        } else {
            let p = theme_palette(kind);
            let left = if self.is_focused { p[1] } else { p[3] };
            let right = if self.is_focused { p[2] } else { palette::RETRO_INACTIVE_TITLE_RIGHT };
            seq![ShapeV::GradientH { x: tx, y: ty, w: tw, h: 18, left, right }]
                + icon16_shapes(icon_for_title(title), tx + 2, ty + 1)
                + seq![stext(tx + 22, ty + 5, text, if self.is_focused { palette::WHITE } else { palette::RETRO_HIGHLIGHT })]
        }
    }

    /// The frame of a shown window: its raised border, the sunken edge of
    /// the client area, the title bar, the minimize button with its bar and
    /// the close button with its cross.
    pub open spec fn frame_scene(&self, title: Seq<char>, kind: ThemeKind) -> Seq<ShapeV> {
        let cx = self.x + 4;
        let cy = self.y + 22;
        let cw = if self.width >= 8 { self.width - 8 } else { 0 };
        let ch = if self.height >= 26 { self.height - 26 } else { 0 };
        let min_x = self.x + self.width - 38;
        let close_x = self.x + self.width - 20;
        seq![
            ShapeV::Raised { x: self.x as int, y: self.y as int, w: self.width as int, h: self.height as int },
            ShapeV::Sunken { x: cx - 2, y: cy - 2, w: cw + 4, h: ch + 4 }
        ] + self.title_bar(title, kind) + seq![
            ShapeV::Button { x: min_x, y: self.y + 4, w: 16, h: 14, pressed: false },
            sfill(min_x + 4, self.y + 13, 6, 2, palette::RETRO_TEXT),
            ShapeV::Button { x: close_x, y: self.y + 4, w: 16, h: 14, pressed: false }
        ] + cross_dots(close_x, self.y + 4, 22)
    }
}

impl Window {
    /// Whether the window's frame can be drawn with ordinary coordinates.
    pub open spec fn drawable(&self) -> bool {
        &&& -0x0400_0000 <= self.x <= 0x0400_0000
        &&& -0x0400_0000 <= self.y <= 0x0400_0000
        &&& self.width <= 0x1_0000
        &&& self.height <= 0x1_0000
    }

    /// Draws the frame of a shown window titled `title` in the theme of
    /// kind `kind`: raised border, sunken client edge, the title bar (the
    /// platinum pinstripes with a centred title, or a gradient with the
    /// title's icon and the title), and the minimize and close buttons,
    /// exactly the pixels of `frame_scene`; then restricts drawing to the
    /// client area for the application. A minimized window draws nothing.
    pub fn render(&self, fb: &mut Framebuffer, title: &str, kind: ThemeKind)
        requires
            old(fb).wf(),
            self.wf(),
            self.drawable(),
        ensures
            final(fb).wf(),
            final(fb).width == old(fb).width,
            final(fb).height == old(fb).height,
            final(fb).bga == old(fb).bga,
            self.is_minimized ==> *final(fb) == *old(fb),
            !self.is_minimized ==> final(fb).backbuffer@ == painted(*old(fb), old(fb).backbuffer@,
                self.frame_scene(title@, kind)),
            !self.is_minimized ==> {
                let (cx, cy, cw, ch) = (self.x + 4, self.y + 22,
                    if self.width >= 8 { self.width - 8 } else { 0 },
                    if self.height >= 26 { self.height - 26 } else { 0 });
                final(fb).clip == Some((
                    (if cx > 0 { cx } else { 0 }) as isize,
                    (if cy > 0 { cy } else { 0 }) as isize,
                    (if cx + cw < old(fb).width { cx + cw } else { old(fb).width as int }) as isize,
                    (if cy + ch < old(fb).height { cy + ch } else { old(fb).height as int }) as isize,
                ))
            },
    {
        if self.is_minimized {
            return;
        }
        let ghost fb0 = *fb;
        let theme = Theme::get(kind);
        let (cx, cy, cw, ch) = self.client_bounds();
        self.draw_edges(fb, cx, cy, cw, ch);
        let ghost drawn = seq![
            ShapeV::Raised { x: self.x as int, y: self.y as int, w: self.width as int, h: self.height as int },
            ShapeV::Sunken { x: cx - 2, y: cy - 2, w: cw + 4, h: ch + 4 }
        ];
        let ghost mid = *fb;
        self.draw_title_bar(fb, title, kind, &theme);
        proof {
            lemma_paint_seq(fb0, mid, drawn, self.title_bar(title@, kind));
        }
        let ghost drawn = drawn + self.title_bar(title@, kind);
        let ghost mid = *fb;
        self.draw_buttons(fb);
        proof {
            lemma_paint_seq(fb0, mid, drawn, self.buttons_scene());
            assert(drawn + self.buttons_scene() =~= self.frame_scene(title@, kind));
        }
        fb.set_clip(cx, cy, cw, ch);
    }

    /// The minimize button with its bar and the close button with its cross.
    pub open spec fn buttons_scene(&self) -> Seq<ShapeV> {
        let min_x = self.x + self.width - 38;
        let close_x = self.x + self.width - 20;
        seq![
            ShapeV::Button { x: min_x, y: self.y + 4, w: 16, h: 14, pressed: false },
            sfill(min_x + 4, self.y + 13, 6, 2, palette::RETRO_TEXT),
            ShapeV::Button { x: close_x, y: self.y + 4, w: 16, h: 14, pressed: false }
        ] + cross_dots(close_x, self.y + 4, 22)
    }

    /// Draws the raised border and the client area's sunken edge.
    fn draw_edges(&self, fb: &mut Framebuffer, cx: isize, cy: isize, cw: usize, ch: usize)
        requires
            old(fb).wf(),
            self.wf(),
            self.drawable(),
            cx == self.x + 4,
            cy == self.y + 22,
            cw == if self.width >= 8 { self.width - 8 } else { 0 },
            ch == if self.height >= 26 { self.height - 26 } else { 0 },
        ensures
            drawn_over(*old(fb), *final(fb)),
            final(fb).backbuffer@ == painted(*old(fb), old(fb).backbuffer@, seq![
                ShapeV::Raised { x: self.x as int, y: self.y as int, w: self.width as int, h: self.height as int },
                ShapeV::Sunken { x: cx - 2, y: cy - 2, w: cw + 4, h: ch + 4 }
            ]),
    {
        let ghost fb0 = *fb;
        let ghost r = ShapeV::Raised { x: self.x as int, y: self.y as int, w: self.width as int, h: self.height as int };
        let ghost s = ShapeV::Sunken { x: cx - 2, y: cy - 2, w: cw + 4, h: ch + 4 };
        let ghost mid = *fb;
        raised(fb, self.x, self.y, self.width, self.height);
        proof {
            assert(Seq::<ShapeV>::empty().push(r).drop_last() =~= Seq::<ShapeV>::empty());
            lemma_paint_step(fb0, mid, Seq::empty(), r);
        }
        let ghost mid = *fb;
        sunken(fb, cx - 2, cy - 2, cw + 4, ch + 4);
        proof {
            lemma_paint_step(fb0, mid, seq![r], s);
            assert(seq![r].push(s) =~= seq![r, s]);
            assert(Seq::<ShapeV>::empty().push(r) =~= seq![r]);
        }
    }

    /// Draws `title_bar(title@, kind)`; `theme` is the theme of `kind`.
    fn draw_title_bar(&self, fb: &mut Framebuffer, title: &str, kind: ThemeKind, theme: &Theme)
        requires
            old(fb).wf(),
            self.wf(),
            self.drawable(),
            theme.palette_of() == theme_palette(kind),
        ensures
            drawn_over(*old(fb), *final(fb)),
            final(fb).backbuffer@ == painted(*old(fb), old(fb).backbuffer@, self.title_bar(title@, kind)),
    {
        let ghost fb0 = *fb;
        let title_x = self.x + 2;
        let title_y = self.y + 2;
        let title_w: usize = if self.width >= 4 { self.width - 4 } else { 0 };
        let text = chars_of(title);
        let text = crate::render::clipped(text.as_slice(), 0x1000);
        proof {
            assert(shown(text@) == text@);
        }
        if kind == ThemeKind::MacOS9 {
            let platinum = Color::from_raw(palette::RETRO_MACOS_PLATINUM);
            let ghost mid = *fb;
            rect(fb, title_x, title_y, title_w, 18, platinum);
            let ghost head = seq![sfill(title_x as int, title_y as int, title_w as int, 18, palette::RETRO_MACOS_PLATINUM)];
            proof {
                lemma_paint_step(fb0, mid, Seq::empty(), head[0]);
                assert(Seq::<ShapeV>::empty().push(head[0]) =~= head);
            }
            let stripe_w: usize = if title_w >= 4 { title_w - 4 } else { 0 };
            let stripe = Color::from_rgb(170, 170, 170);
            let mut py = title_y + 3;
            let mut k: usize = 0;
            while py < title_y + 15
                invariant
                    fb.wf(),
                    fb.same_frame(&fb0),
                    title_y == self.y + 2,
                    title_x == self.x + 2,
                    -0x0400_0000 <= self.y <= 0x0400_0000,
                    -0x0400_0000 <= title_x <= 0x0400_0010,
                    py == title_y + 3 + 2 * k,
                    k <= 6,
                    stripe_w <= 0x1_0000,
                    stripe.raw == pack_argb(255, 170, 170, 170),
                    fb.backbuffer@ == painted(fb0, fb0.backbuffer@,
                        head + stripes(title_x as int, title_y as int, stripe_w as int, k as int)),
                decreases title_y + 16 - py,
            {
                let ghost mid = *fb;
                rect(fb, title_x + 2, py, stripe_w, 1, stripe);
                proof {
                    lemma_paint_step(fb0, mid, head + stripes(title_x as int, title_y as int, stripe_w as int, k as int),
                        sfill(title_x + 2, py as int, stripe_w as int, 1, stripe.raw));
                    assert((head + stripes(title_x as int, title_y as int, stripe_w as int, k as int)).push(
                        sfill(title_x + 2, py as int, stripe_w as int, 1, stripe.raw))
                        =~= head + stripes(title_x as int, title_y as int, stripe_w as int, k + 1));
                }
                py = py + 2;
                k = k + 1;
            }
            let ghost drawn = head + stripes(title_x as int, title_y as int, stripe_w as int, 6);
            let tw = text.len() * 8 + 12;
            let tx = title_x + half_of(title_w as isize - tw as isize);
            let ghost plate = seq![
                sfill(tx as int, title_y + 2, tw as int, 14, palette::RETRO_MACOS_PLATINUM),
                ShapeV::Sunken { x: tx as int, y: title_y + 2, w: tw as int, h: 14 },
                stext(tx + 6, title_y + 5, text@, palette::BLACK)
            ];
            let ghost mid = *fb;
            rect(fb, tx, title_y + 2, tw, 14, platinum);
            proof { lemma_paint_step(fb0, mid, drawn, plate[0]); }
            let ghost mid = *fb;
            sunken(fb, tx, title_y + 2, tw, 14);
            proof { lemma_paint_step(fb0, mid, drawn.push(plate[0]), plate[1]); }
            let ghost mid = *fb;
            crate::render::label_chars(fb, tx + 6, title_y + 5, text.as_slice(), Color::from_raw(palette::BLACK));
            proof {
                lemma_paint_step(fb0, mid, drawn.push(plate[0]).push(plate[1]), plate[2]);
                assert(drawn.push(plate[0]).push(plate[1]).push(plate[2]) =~= self.title_bar(title@, kind));
            }
        } else {
            let (left, right) = if self.is_focused {
                (theme.win_title_active_top, theme.win_title_active_bot)
            } else {
                (theme.win_title_inactive, Color::from_raw(palette::RETRO_INACTIVE_TITLE_RIGHT))
            };
            proof {
                assert(theme.palette_of()[1] == theme.win_title_active_top.raw);
                assert(theme.palette_of()[2] == theme.win_title_active_bot.raw);
                assert(theme.palette_of()[3] == theme.win_title_inactive.raw);
            }
            let ghost g = ShapeV::GradientH { x: title_x as int, y: title_y as int, w: title_w as int, h: 18,
                left: left.raw, right: right.raw };
            let ghost mid = *fb;
            gradient_h(fb, title_x, title_y, title_w, 18, left, right);
            proof {
                lemma_paint_step(fb0, mid, Seq::empty(), g);
                assert(Seq::<ShapeV>::empty().push(g) =~= seq![g]);
            }
            let icon = icon_from_title(title);
            let ghost mid = *fb;
            draw_icon_16(fb, title_x + 2, title_y + 1, icon);
            proof {
                lemma_paint_seq(fb0, mid, seq![g], icon16_shapes(icon, title_x + 2, title_y + 1));
            }
            let ghost drawn = seq![g] + icon16_shapes(icon, title_x + 2, title_y + 1);
            let color = if self.is_focused { Color::from_raw(palette::WHITE) } else { Color::from_raw(palette::RETRO_HIGHLIGHT) };
            let ghost last = stext(title_x + 22, title_y + 5, text@, color.raw);
            let ghost mid = *fb;
            crate::render::label_chars(fb, title_x + 22, title_y + 5, text.as_slice(), color);
            proof {
                lemma_paint_step(fb0, mid, drawn, last);
                assert(drawn.push(last) =~= self.title_bar(title@, kind));
            }
        }
    }

    /// Draws `buttons_scene()`.
    fn draw_buttons(&self, fb: &mut Framebuffer)
        requires
            old(fb).wf(),
            self.wf(),
            self.drawable(),
        ensures
            drawn_over(*old(fb), *final(fb)),
            final(fb).backbuffer@ == painted(*old(fb), old(fb).backbuffer@, self.buttons_scene()),
    {
        let ghost fb0 = *fb;
        let text_color = Color::from_raw(palette::RETRO_TEXT);
        let min_x = self.x + self.width as isize - 38;
        let min_y = self.y + 4;
        let ghost b1 = ShapeV::Button { x: min_x as int, y: min_y as int, w: 16, h: 14, pressed: false };
        let ghost bar = sfill(min_x + 4, min_y + 9, 6, 2, palette::RETRO_TEXT);
        let close_x = self.x + self.width as isize - 20;
        let close_y = self.y + 4;
        let ghost b2 = ShapeV::Button { x: close_x as int, y: close_y as int, w: 16, h: 14, pressed: false };
        let ghost mid = *fb;
        button(fb, min_x, min_y, 16, 14, false);
        proof {
            lemma_paint_step(fb0, mid, Seq::empty(), b1);
            assert(Seq::<ShapeV>::empty().push(b1) =~= seq![b1]);
        }
        let ghost mid = *fb;
        rect(fb, min_x + 4, min_y + 9, 6, 2, text_color);
        proof { lemma_paint_step(fb0, mid, seq![b1], bar); }
        let ghost mid = *fb;
        button(fb, close_x, close_y, 16, 14, false);
        proof {
            lemma_paint_step(fb0, mid, seq![b1].push(bar), b2);
            assert(seq![b1].push(bar).push(b2) =~= seq![b1, bar, b2]);
        }
        let ghost head = seq![b1, bar, b2];
        let cross: [(isize, isize); 22] = [
            (4, 3), (5, 3), (9, 3), (10, 3),
            (5, 4), (6, 4), (8, 4), (9, 4),
            (6, 5), (7, 5), (8, 5),
            (6, 6), (7, 6), (8, 6),
            (5, 7), (6, 7), (8, 7), (9, 7),
            (4, 8), (5, 8), (9, 8), (10, 8),
        ];
        assert(cross@ =~= cross_offsets());
        let mut i: usize = 0;
        while i < 22
            invariant
                fb.wf(),
                fb.same_frame(&fb0),
                -0x0500_0000 <= close_x <= 0x0500_0000,
                -0x0500_0000 <= close_y <= 0x0500_0000,
                cross@ == cross_offsets(),
                forall|j: int| 0 <= j < 22 ==> 0 <= #[trigger] cross@[j].0 <= 10 && 0 <= cross@[j].1 <= 8,
                text_color.raw == palette::RETRO_TEXT,
                i <= 22,
                fb.backbuffer@ == painted(fb0, fb0.backbuffer@, head + cross_dots(close_x as int, close_y as int, i as int)),
            decreases 22 - i,
        {
            let (dx, dy) = cross[i];
            let ghost d = sfill(close_x + dx, close_y + dy, 1, 1, palette::RETRO_TEXT);
            let ghost mid = *fb;
            crate::render::dot(fb, close_x + dx, close_y + dy, text_color);
            proof {
                lemma_paint_step(fb0, mid, head + cross_dots(close_x as int, close_y as int, i as int), d);
                assert((head + cross_dots(close_x as int, close_y as int, i as int)).push(d)
                    =~= head + cross_dots(close_x as int, close_y as int, i + 1));
            }
            i = i + 1;
        }
        assert(head + cross_dots(close_x as int, close_y as int, 22) =~= self.buttons_scene());
    }
}
} // verus!
