//! Desktop themes: their palettes, the wallpaper each one paints, and the
//! current/pending theme selection.
use vstd::prelude::*;
use crate::color::{pack_argb, Color};
use crate::palette;
use crate::canvas::{draw_text_to_buffer, text_buffer};
use crate::geometry::lemma_pixel_index;

verus! {

/// The available desktop themes.
#[derive(Debug, Clone, Copy, PartialEq, Eq, Structural)]
pub enum ThemeKind {
    Windows98,
    MacOS9,
    DeepSpace,
    CyberpunkNeon,
    MatrixEmerald,
    RetroSunset,
}

/// A theme's name and palette.
#[derive(Debug, Clone, Copy)]
pub struct Theme {
    pub kind: ThemeKind,
    pub name: &'static str,
    pub accent_color: Color,
    pub win_title_active_top: Color,
    pub win_title_active_bot: Color,
    pub win_title_inactive: Color,
    pub win_border_active: Color,
    pub win_border_inactive: Color,
    pub taskbar_top: Color,
    pub taskbar_bot: Color,
    pub start_btn: Color,
    pub wallpaper_top: Color,
    pub wallpaper_bot: Color,
}

/// The palette of theme `kind`, field by field in declaration order from
/// `accent_color` to `wallpaper_bot`.
pub open spec fn theme_palette(kind: ThemeKind) -> Seq<u32> {
    match kind {
        ThemeKind::Windows98 => seq![palette::RETRO_SELECTION, palette::RETRO_ACTIVE_TITLE_LEFT, palette::RETRO_ACTIVE_TITLE_RIGHT, palette::RETRO_INACTIVE_TITLE_LEFT, palette::RETRO_FACE, palette::RETRO_FACE, palette::RETRO_FACE, palette::RETRO_FACE, palette::RETRO_FACE, palette::RETRO_TEAL, palette::RETRO_TEAL],
        ThemeKind::MacOS9 => seq![pack_argb(255, 0, 0, 128), palette::RETRO_MACOS_PLATINUM, pack_argb(255, 180, 180, 180), pack_argb(255, 200, 200, 200), palette::RETRO_MACOS_PLATINUM, palette::RETRO_MACOS_PLATINUM, palette::RETRO_MACOS_PLATINUM, pack_argb(255, 190, 190, 190), palette::RETRO_MACOS_PLATINUM, pack_argb(255, 100, 120, 140), pack_argb(255, 70, 90, 110)],
        ThemeKind::DeepSpace => seq![pack_argb(255, 56, 189, 248), pack_argb(255, 2, 132, 199), pack_argb(255, 3, 105, 161), pack_argb(255, 51, 65, 85), pack_argb(255, 56, 189, 248), pack_argb(255, 71, 85, 105), pack_argb(255, 30, 41, 59), pack_argb(255, 15, 23, 42), pack_argb(255, 37, 99, 235), pack_argb(255, 15, 23, 42), pack_argb(255, 30, 58, 95)],
        ThemeKind::CyberpunkNeon => seq![pack_argb(255, 244, 63, 94), pack_argb(255, 217, 70, 239), pack_argb(255, 168, 85, 247), pack_argb(255, 63, 63, 70), pack_argb(255, 244, 63, 94), pack_argb(255, 82, 82, 91), pack_argb(255, 39, 39, 42), pack_argb(255, 24, 24, 27), pack_argb(255, 244, 63, 94), pack_argb(255, 24, 16, 38), pack_argb(255, 76, 29, 149)],
        ThemeKind::MatrixEmerald => seq![pack_argb(255, 34, 197, 94), pack_argb(255, 22, 101, 52), pack_argb(255, 20, 83, 45), pack_argb(255, 38, 38, 38), pack_argb(255, 34, 197, 94), pack_argb(255, 64, 64, 64), pack_argb(255, 23, 23, 23), pack_argb(255, 10, 10, 10), pack_argb(255, 22, 163, 74), pack_argb(255, 5, 20, 10), pack_argb(255, 10, 40, 20)],
        ThemeKind::RetroSunset => seq![pack_argb(255, 245, 158, 11), pack_argb(255, 234, 88, 12), pack_argb(255, 194, 65, 12), pack_argb(255, 68, 64, 60), pack_argb(255, 245, 158, 11), pack_argb(255, 87, 83, 78), pack_argb(255, 41, 37, 36), pack_argb(255, 28, 25, 23), pack_argb(255, 234, 88, 12), pack_argb(255, 30, 20, 40), pack_argb(255, 120, 40, 30)],
    }
}

impl Theme {
    /// The palette of this theme, in the order of `theme_palette`.
    pub open spec fn palette_of(self) -> Seq<u32> {
        seq![self.accent_color.raw, self.win_title_active_top.raw, self.win_title_active_bot.raw, self.win_title_inactive.raw, self.win_border_active.raw, self.win_border_inactive.raw, self.taskbar_top.raw, self.taskbar_bot.raw, self.start_btn.raw, self.wallpaper_top.raw, self.wallpaper_bot.raw]
    }

    /// The theme of kind `kind`.
    pub fn get(kind: ThemeKind) -> (t: Theme)
        ensures
            t.kind == kind,
            t.palette_of() == theme_palette(kind),
            kind == ThemeKind::Windows98 ==> t.name@ == "Windows 98 (Memphis)"@,
            kind == ThemeKind::MacOS9 ==> t.name@ == "Mac OS 9 (Platinum)"@,
            kind == ThemeKind::DeepSpace ==> t.name@ == "Deep Space"@,
            kind == ThemeKind::CyberpunkNeon ==> t.name@ == "Cyberpunk Neon"@,
            kind == ThemeKind::MatrixEmerald ==> t.name@ == "Matrix Emerald"@,
            kind == ThemeKind::RetroSunset ==> t.name@ == "Retro Sunset"@,
    {
        let t = match kind {
            ThemeKind::Windows98 => Theme {
                kind,
                name: "Windows 98 (Memphis)",
                accent_color: Color::from_raw(palette::RETRO_SELECTION),
                win_title_active_top: Color::from_raw(palette::RETRO_ACTIVE_TITLE_LEFT),
                win_title_active_bot: Color::from_raw(palette::RETRO_ACTIVE_TITLE_RIGHT),
                win_title_inactive: Color::from_raw(palette::RETRO_INACTIVE_TITLE_LEFT),
                win_border_active: Color::from_raw(palette::RETRO_FACE),
                win_border_inactive: Color::from_raw(palette::RETRO_FACE),
                taskbar_top: Color::from_raw(palette::RETRO_FACE),
                taskbar_bot: Color::from_raw(palette::RETRO_FACE),
                start_btn: Color::from_raw(palette::RETRO_FACE),
                wallpaper_top: Color::from_raw(palette::RETRO_TEAL),
                wallpaper_bot: Color::from_raw(palette::RETRO_TEAL),
            },
            ThemeKind::MacOS9 => Theme {
                kind,
                name: "Mac OS 9 (Platinum)",
                accent_color: Color::from_rgb(0, 0, 128),
                win_title_active_top: Color::from_raw(palette::RETRO_MACOS_PLATINUM),
                win_title_active_bot: Color::from_rgb(180, 180, 180),
                win_title_inactive: Color::from_rgb(200, 200, 200),
                win_border_active: Color::from_raw(palette::RETRO_MACOS_PLATINUM),
                win_border_inactive: Color::from_raw(palette::RETRO_MACOS_PLATINUM),
                taskbar_top: Color::from_raw(palette::RETRO_MACOS_PLATINUM),
                taskbar_bot: Color::from_rgb(190, 190, 190),
                start_btn: Color::from_raw(palette::RETRO_MACOS_PLATINUM),
                wallpaper_top: Color::from_rgb(100, 120, 140),
                wallpaper_bot: Color::from_rgb(70, 90, 110),
            },
            ThemeKind::DeepSpace => Theme {
                kind,
                name: "Deep Space",
                accent_color: Color::from_rgb(56, 189, 248),
                win_title_active_top: Color::from_rgb(2, 132, 199),
                win_title_active_bot: Color::from_rgb(3, 105, 161),
                win_title_inactive: Color::from_rgb(51, 65, 85),
                win_border_active: Color::from_rgb(56, 189, 248),
                win_border_inactive: Color::from_rgb(71, 85, 105),
                taskbar_top: Color::from_rgb(30, 41, 59),
                taskbar_bot: Color::from_rgb(15, 23, 42),
                start_btn: Color::from_rgb(37, 99, 235),
                wallpaper_top: Color::from_rgb(15, 23, 42),
                wallpaper_bot: Color::from_rgb(30, 58, 95),
            },
            ThemeKind::CyberpunkNeon => Theme {
                kind,
                name: "Cyberpunk Neon",
                accent_color: Color::from_rgb(244, 63, 94),
                win_title_active_top: Color::from_rgb(217, 70, 239),
                win_title_active_bot: Color::from_rgb(168, 85, 247),
                win_title_inactive: Color::from_rgb(63, 63, 70),
                win_border_active: Color::from_rgb(244, 63, 94),
                win_border_inactive: Color::from_rgb(82, 82, 91),
                taskbar_top: Color::from_rgb(39, 39, 42),
                taskbar_bot: Color::from_rgb(24, 24, 27),
                start_btn: Color::from_rgb(244, 63, 94),
                wallpaper_top: Color::from_rgb(24, 16, 38),
                wallpaper_bot: Color::from_rgb(76, 29, 149),
            },
            ThemeKind::MatrixEmerald => Theme {
                kind,
                name: "Matrix Emerald",
                accent_color: Color::from_rgb(34, 197, 94),
                win_title_active_top: Color::from_rgb(22, 101, 52),
                win_title_active_bot: Color::from_rgb(20, 83, 45),
                win_title_inactive: Color::from_rgb(38, 38, 38),
                win_border_active: Color::from_rgb(34, 197, 94),
                win_border_inactive: Color::from_rgb(64, 64, 64),
                taskbar_top: Color::from_rgb(23, 23, 23),
                taskbar_bot: Color::from_rgb(10, 10, 10),
                start_btn: Color::from_rgb(22, 163, 74),
                wallpaper_top: Color::from_rgb(5, 20, 10),
                wallpaper_bot: Color::from_rgb(10, 40, 20),
            },
            ThemeKind::RetroSunset => Theme {
                kind,
                name: "Retro Sunset",
                accent_color: Color::from_rgb(245, 158, 11),
                win_title_active_top: Color::from_rgb(234, 88, 12),
                win_title_active_bot: Color::from_rgb(194, 65, 12),
                win_title_inactive: Color::from_rgb(68, 64, 60),
                win_border_active: Color::from_rgb(245, 158, 11),
                win_border_inactive: Color::from_rgb(87, 83, 78),
                taskbar_top: Color::from_rgb(41, 37, 36),
                taskbar_bot: Color::from_rgb(28, 25, 23),
                start_btn: Color::from_rgb(234, 88, 12),
                wallpaper_top: Color::from_rgb(30, 20, 40),
                wallpaper_bot: Color::from_rgb(120, 40, 30),
            },
        };
        assert(t.palette_of() =~= theme_palette(kind));
        t
    }
}

/// `a / 2` rounded toward zero.
pub open spec fn half_toward_zero(a: int) -> int {
    if a >= 0 { a / 2 } else { -((-a) / 2) }
}

/// The watermark text of the classic theme.
pub open spec fn watermark_classic() -> Seq<char> {
    seq!['M', 'O', 'U', 'R', 'O', 'S', ' ', '9', '8']
}

/// The watermark text of the other gradient themes.
pub open spec fn watermark_modern() -> Seq<char> {
    seq!['M', 'O', 'U', 'R', 'O', 'S', ' ', 'O', 'S']
}

/// Whether `col`, `row` carries one of the faint grid dots of the gradient
/// wallpapers: every 40 pixels from 20, keeping 40 pixels clear of the
/// right and bottom edges.
pub open spec fn is_grid_dot(w: int, h: int, col: int, row: int) -> bool {
    &&& 20 <= row < h - 40
    &&& (row - 20) % 40 == 0
    &&& 20 <= col < w - 40
    &&& (col - 20) % 40 == 0
}

/// The wallpaper pixel at `col`, `row` before the watermark.
pub open spec fn wallpaper_base_pixel(t: Theme, w: int, h: int, col: int, row: int) -> u32 {
    match t.kind {
        ThemeKind::Windows98 => palette::RETRO_TEAL,
        ThemeKind::MacOS9 => if (row / 2) % 2 == 0 { pack_argb(255, 110, 130, 150) } else { pack_argb(255, 100, 120, 140) },
        _ => if is_grid_dot(w, h, col, row) {
            pack_argb(40, 255, 255, 255)
        } else {
            crate::color::lerp_spec(t.wallpaper_top.raw, t.wallpaper_bot.raw,
                ((row * 256) / (if h > 1 { h } else { 1 })) as u16)
        },
    }
}

/// The `w` by `h` wallpaper of theme `t`: teal with a shadowed watermark
/// for the classic theme, pinstripes for the platinum theme, and a vertical
/// gradient with grid dots and a faint watermark for the others.
pub open spec fn wallpaper_pixels(t: Theme, w: int, h: int) -> Seq<u32> {
    let base = Seq::new((w * h) as nat, |i: int| wallpaper_base_pixel(t, w, h, i % w, i / w));
    let wm_x = half_toward_zero(w - 288);
    let wm_y = half_toward_zero(h - 100);
    match t.kind {
        ThemeKind::Windows98 => {
            let shadowed = text_buffer(base, w, wm_x + 2, wm_y + 2, watermark_classic(), 4, pack_argb(255, 0, 96, 96));
            text_buffer(shadowed, w, wm_x, wm_y, watermark_classic(), 4, pack_argb(255, 0, 160, 160))
        },
        ThemeKind::MacOS9 => base,
        _ => text_buffer(base, w, wm_x, wm_y, watermark_modern(), 4, pack_argb(35, 255, 255, 255)),
    }
}

fn half_toward_zero_exec(a: isize) -> (r: isize)
    requires
        a > isize::MIN,
    ensures
        r == half_toward_zero(a as int),
{
    if a >= 0 { a / 2 } else { -((-a) / 2) }
}

impl Theme {
    fn base_pixel(&self, w: usize, h: usize, col: usize, row: usize) -> (v: u32)
        requires
            row < h,
            h * 256 <= usize::MAX,
        ensures
            v == wallpaper_base_pixel(*self, w as int, h as int, col as int, row as int),
    {
        match self.kind {
            ThemeKind::Windows98 => palette::RETRO_TEAL,
            ThemeKind::MacOS9 => if (row / 2) % 2 == 0 {
                Color::from_rgb(110, 130, 150).raw
            } else {
                Color::from_rgb(100, 120, 140).raw
            },
            _ => {
                if row >= 20 && h >= 40 && row < h - 40 && (row - 20) % 40 == 0 && col >= 20 && w >= 40
                    && col < w - 40 && (col - 20) % 40 == 0 {
                    Color::from_argb(40, 255, 255, 255).raw
                } else {
                    let hh = if h > 1 { h } else { 1 };
                    assert(row * 256 <= usize::MAX) by (nonlinear_arith)
                        requires row < h, h * 256 <= usize::MAX;
                    assert((row as int * 256) / (hh as int) < 256) by (nonlinear_arith)
                        requires row < h, hh >= h, hh >= 1;
                    let t = ((row * 256) / hh) as u16;
                    self.wallpaper_top.lerp(self.wallpaper_bot, t).raw
                }
            },
        }
    }

    /// Paints this theme's `width` by `height` wallpaper.
    pub fn render_wallpaper(&self, width: usize, height: usize) -> (buf: Vec<u32>)
        requires
            width <= isize::MAX,
            height <= isize::MAX,
            width * height * 4 <= isize::MAX,
            height * 256 <= usize::MAX,
        ensures
            buf@ == wallpaper_pixels(*self, width as int, height as int),
            buf@.len() == width * height,
    {
        let ghost w = width as int;
        let ghost h = height as int;
        let n = width * height;
        let mut buf: Vec<u32> = Vec::with_capacity(n);
        let mut row: usize = 0;
        while row < height
            invariant
                width * height * 4 <= isize::MAX,
                height * 256 <= usize::MAX,
                w == width as int,
                h == height as int,
                n == width * height,
                row <= height,
                buf@.len() == row * width,
                forall|j: int| 0 <= j < buf@.len() ==> #[trigger] buf@[j]
                    == wallpaper_base_pixel(*self, w, h, j % w, j / w),
            decreases height - row,
        {
            let mut col: usize = 0;
            while col < width
                invariant
                    width * height * 4 <= isize::MAX,
                    height * 256 <= usize::MAX,
                    w == width as int,
                    h == height as int,
                    row < height,
                    col <= width,
                    buf@.len() == row * width + col,
                    forall|j: int| 0 <= j < buf@.len() ==> #[trigger] buf@[j]
                        == wallpaper_base_pixel(*self, w, h, j % w, j / w),
                decreases width - col,
            {
                proof {
                    lemma_pixel_index(row as int, col as int, w, h);
                }
                let v = self.base_pixel(width, height, col, row);
                buf.push(v);
                col = col + 1;
            }
            assert(row * width + width == (row + 1) * width) by (nonlinear_arith);
            row = row + 1;
        }
        assert(buf@ =~= Seq::new((w * h) as nat, |i: int| wallpaper_base_pixel(*self, w, h, i % w, i / w))) by {
            assert(buf@.len() == w * h) by (nonlinear_arith)
                requires buf@.len() == row * width, row == height, w == width, h == height;
        }
        let wm_x = half_toward_zero_exec(width as isize - 288);
        let wm_y = half_toward_zero_exec(height as isize - 100);
        match self.kind {
            ThemeKind::Windows98 => {
                let text: [char; 9] = ['M', 'O', 'U', 'R', 'O', 'S', ' ', '9', '8'];
                assert(text@ =~= watermark_classic());
                let ghost base = buf@;
                draw_text_to_buffer(&mut buf, width, height, wm_x + 2, wm_y + 2, &text, 4, Color::from_rgb(0, 96, 96));
                proof {
                    crate::canvas::lemma_text_buffer_len(base, w, wm_x + 2, wm_y + 2, text@, 4, pack_argb(255, 0, 96, 96));
                }
                let ghost shadowed = buf@;
                draw_text_to_buffer(&mut buf, width, height, wm_x, wm_y, &text, 4, Color::from_rgb(0, 160, 160));
                proof {
                    crate::canvas::lemma_text_buffer_len(shadowed, w, wm_x as int, wm_y as int, text@, 4, pack_argb(255, 0, 160, 160));
                }
            },
            ThemeKind::MacOS9 => {},
            _ => {
                let text: [char; 9] = ['M', 'O', 'U', 'R', 'O', 'S', ' ', 'O', 'S'];
                assert(text@ =~= watermark_modern());
                let ghost base = buf@;
                draw_text_to_buffer(&mut buf, width, height, wm_x, wm_y, &text, 4, Color::from_argb(35, 255, 255, 255));
                proof {
                    crate::canvas::lemma_text_buffer_len(base, w, wm_x as int, wm_y as int, text@, 4, pack_argb(35, 255, 255, 255));
                }
            },
        }
        buf
    }
}

/// The theme in use and the theme change the desktop has not yet applied.
pub struct ThemeState {
    pub current: ThemeKind,
    pub pending: Option<ThemeKind>,
}

impl ThemeState {
    /// The start-up selection: the classic theme, nothing pending.
    pub fn new() -> (s: ThemeState)
        ensures
            s.current == ThemeKind::Windows98,
            s.pending.is_none(),
    {
        ThemeState { current: ThemeKind::Windows98, pending: None }
    }
}

/// The selection after `set_theme(kind)`.
pub open spec fn after_set(state: ThemeState, kind: ThemeKind) -> ThemeState {
    ThemeState { current: kind, pending: Some(kind) }
}

/// What `take_pending_theme` returns, and the selection after it.
pub open spec fn after_take(state: ThemeState) -> (Option<ThemeKind>, ThemeState) {
    (state.pending, ThemeState { current: state.current, pending: None })
}

/// Makes `kind` the current theme and leaves it pending for the desktop.
pub fn set_theme(state: &mut ThemeState, kind: ThemeKind)
    ensures
        *final(state) == after_set(*old(state), kind),
{
    state.pending = Some(kind);
    state.current = kind;
}

/// The current theme.
pub fn current_theme(state: &ThemeState) -> (k: ThemeKind)
    ensures
        k == state.current,
{
    state.current
}

/// Takes the pending theme change, if any, leaving none pending.
pub fn take_pending_theme(state: &mut ThemeState) -> (p: Option<ThemeKind>)
    ensures
        (p, *final(state)) == after_take(*old(state)),
{
    let p = state.pending;
    state.pending = None;
    p
}

/// Setting a theme makes it current, hands it to the next take of the
/// pending change, and to that take only; taking never changes the current
/// theme.
pub proof fn lemma_set_then_take(state: ThemeState, kind: ThemeKind)
    ensures
        after_set(state, kind).current == kind,
        after_take(after_set(state, kind)).0 == Some(kind),
        after_take(after_set(state, kind)).1.current == kind,
        after_take(after_take(after_set(state, kind)).1).0.is_none(),
        after_take(state).1.current == state.current,
{
}

} // verus!
