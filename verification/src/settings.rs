//! The display settings dialog: pick one of the six themes and apply it.
use vstd::prelude::*;
use crate::input::DecodedKey;
use crate::color::{pack_argb, Color};
use crate::framebuffer::Framebuffer;
use crate::palette;
use crate::render::{drawn_over, inner};
use crate::scene::{add_fill, add_label, add_shape, paint, painted, scene_ok, sfill, shapes_view, stext, Shape, ShapeV};
use crate::theme::{after_set, set_theme, ThemeKind, ThemeState};

verus! {

/// The dialog's state.
pub struct SettingsApp {
    pub selected_theme: ThemeKind,
    pub applied_theme: ThemeKind,
    pub pending_apply: bool,
}

/// The themes in list order.
pub open spec fn theme_at(i: int) -> ThemeKind {
    if i == 0 { ThemeKind::Windows98 }
    else if i == 1 { ThemeKind::MacOS9 }
    else if i == 2 { ThemeKind::DeepSpace }
    else if i == 3 { ThemeKind::CyberpunkNeon }
    else if i == 4 { ThemeKind::MatrixEmerald }
    else { ThemeKind::RetroSunset }
}

/// The theme a digit key picks (1 to 6).
pub open spec fn theme_for_digit(c: char) -> Option<ThemeKind> {
    if '1' <= c <= '6' { Some(theme_at(c as int - 49)) } else { None }
}

/// The list row under the client-area point `x`, `y` (rows 22 high from
/// height 44, between 18 and 350 across).
pub open spec fn theme_row(x: int, y: int) -> Option<ThemeKind> {
    if 18 <= x <= 350 && 44 <= y < 44 + 6 * 22 { Some(theme_at((y - 44) / 22)) } else { None }
}

/// Whether `x`, `y` is on the Apply (290 to 358) or OK (215 to 283) button,
/// heights 195 to 220.
pub open spec fn on_apply_button(x: int, y: int) -> bool {
    195 <= y <= 220 && ((290 <= x <= 358) || (215 <= x <= 283))
}

fn theme_at_exec(i: usize) -> (k: ThemeKind)
    requires
        i < 6,
    ensures
        k == theme_at(i as int),
{
    if i == 0 { ThemeKind::Windows98 }
    else if i == 1 { ThemeKind::MacOS9 }
    else if i == 2 { ThemeKind::DeepSpace }
    else if i == 3 { ThemeKind::CyberpunkNeon }
    else if i == 4 { ThemeKind::MatrixEmerald }
    else { ThemeKind::RetroSunset }
}

impl SettingsApp {
    /// The classic theme selected and applied.
    pub fn new() -> (app: SettingsApp)
        ensures
            app.selected_theme == ThemeKind::Windows98,
            app.applied_theme == ThemeKind::Windows98,
            !app.pending_apply,
    {
        SettingsApp { selected_theme: ThemeKind::Windows98, applied_theme: ThemeKind::Windows98, pending_apply: false }
    }

    /// The window title.
    pub fn title(&self) -> (t: &'static str)
        ensures
            t@ == "Display Properties"@,
    {
        "Display Properties"
    }

    /// Applies the selected theme: it becomes the applied one and the desktop's.
    fn apply(&mut self, themes: &mut ThemeState)
        ensures
            final(self).selected_theme == old(self).selected_theme,
            final(self).applied_theme == old(self).selected_theme,
            final(self).pending_apply,
            *final(themes) == after_set(*old(themes), old(self).selected_theme),
    {
        self.applied_theme = self.selected_theme;
        self.pending_apply = true;
        set_theme(themes, self.selected_theme);
    }

    /// Reacts to a key: 1 to 6 select a theme, Enter applies the selection.
    pub fn on_key(&mut self, key: DecodedKey, themes: &mut ThemeState)
        ensures
            match key {
                DecodedKey::Unicode(c) => if c == '\n' {
                    &&& final(self).selected_theme == old(self).selected_theme
                    &&& final(self).applied_theme == old(self).selected_theme
                    &&& final(self).pending_apply
                    &&& *final(themes) == after_set(*old(themes), old(self).selected_theme)
                } else {
                    &&& final(self).selected_theme == match theme_for_digit(c) { Some(k) => k, None => old(self).selected_theme }
                    &&& final(self).applied_theme == old(self).applied_theme
                    &&& final(self).pending_apply == old(self).pending_apply
                    &&& *final(themes) == *old(themes)
                },
                DecodedKey::RawKey(_) => *final(self) == *old(self) && *final(themes) == *old(themes),
            },
    {
        match key {
            DecodedKey::Unicode(c) => {
                if c == '\n' {
                    self.apply(themes);
                } else if c >= '1' && c <= '6' {
                    let i = (c as u32 - 49) as usize;
                    self.selected_theme = theme_at_exec(i);
                }
            },
            DecodedKey::RawKey(_) => {},
        }
    }

    /// Reacts to a left click: a list row selects its theme; Apply or OK
    /// applies the selection.
    pub fn on_mouse_click(&mut self, x: isize, y: isize, left: bool, themes: &mut ThemeState)
        ensures
            match (left, theme_row(x as int, y as int)) {
                (true, Some(k)) => {
                    &&& final(self).selected_theme == k
                    &&& final(self).applied_theme == old(self).applied_theme
                    &&& final(self).pending_apply == old(self).pending_apply
                    &&& *final(themes) == *old(themes)
                },
                _ => if left && on_apply_button(x as int, y as int) {
                    &&& final(self).selected_theme == old(self).selected_theme
                    &&& final(self).applied_theme == old(self).selected_theme
                    &&& final(self).pending_apply
                    &&& *final(themes) == after_set(*old(themes), old(self).selected_theme)
                } else {
                    *final(self) == *old(self) && *final(themes) == *old(themes)
                },
            },
    {
        if !left {
            return;
        }
        if x >= 18 && x <= 350 && y >= 44 && y < 44 + 6 * 22 {
            let i = ((y - 44) / 22) as usize;
            self.selected_theme = theme_at_exec(i);
            return;
        }
        if y >= 195 && y <= 220 && ((x >= 290 && x <= 358) || (x >= 215 && x <= 283)) {
            self.apply(themes);
        }
    }
}


/// The name of list entry `i`.
pub open spec fn entry_name(i: int) -> Seq<char> {
    if i == 0 { "Windows 98 (Memphis Classic)"@ }
    else if i == 1 { "Mac OS 9 (Apple Platinum)"@ }
    else if i == 2 { "Deep Space (Modern Dark)"@ }
    else if i == 3 { "Cyberpunk Neon (Synthwave)"@ }
    else if i == 4 { "Matrix Emerald (Green phosphor)"@ }
    else { "Retro Sunset (Amber glow)"@ }
}

/// The accent color of list entry `i`.
pub open spec fn entry_accent(i: int) -> u32 {
    if i == 0 { palette::RETRO_TEAL }
    else if i == 1 { palette::RETRO_MACOS_PLATINUM }
    else if i == 2 { pack_argb(255, 56, 189, 248) }
    else if i == 3 { pack_argb(255, 244, 63, 94) }
    else if i == 4 { pack_argb(255, 34, 197, 94) }
    else { pack_argb(255, 245, 158, 11) }
}

/// The name and accent color of list entry `i`.
fn theme_entry(i: usize) -> (r: (&'static str, Color))
    requires
        i < 6,
    ensures
        r.0@ == entry_name(i as int),
        r.1.raw == entry_accent(i as int),
{
    if i == 0 {
        ("Windows 98 (Memphis Classic)", Color::from_raw(palette::RETRO_TEAL))
    } else if i == 1 {
        ("Mac OS 9 (Apple Platinum)", Color::from_raw(palette::RETRO_MACOS_PLATINUM))
    } else if i == 2 {
        ("Deep Space (Modern Dark)", Color::from_rgb(56, 189, 248))
    } else if i == 3 {
        ("Cyberpunk Neon (Synthwave)", Color::from_rgb(244, 63, 94))
    } else if i == 4 {
        ("Matrix Emerald (Green phosphor)", Color::from_rgb(34, 197, 94))
    } else {
        ("Retro Sunset (Amber glow)", Color::from_rgb(245, 158, 11))
    }
}

/// The selection highlight of a list row at `item_y`, when selected.
pub open spec fn row_highlight(list_x: int, item_y: int, list_w: int, selected: bool) -> Seq<ShapeV> {
    if selected { seq![sfill(list_x + 2, item_y, list_w - 4, 20, palette::RETRO_SELECTION)] } else { Seq::empty() }
}

/// The accent chip, its sunken edge and the name of list row `i`.
pub open spec fn row_body(list_x: int, item_y: int, i: int, selected: bool) -> Seq<ShapeV> {
    seq![
        sfill(list_x + 6, item_y + 4, 12, 12, entry_accent(i)),
        ShapeV::Sunken { x: list_x + 6, y: item_y + 4, w: 12, h: 12 },
        stext(list_x + 24, item_y + 5, entry_name(i), if selected { palette::WHITE } else { palette::BLACK })
    ]
}

/// The tag of the applied theme's row.
pub open spec fn row_tag(list_x: int, item_y: int, list_w: int, selected: bool, applied: bool) -> Seq<ShapeV> {
    if applied {
        seq![stext(list_x + list_w - 76, item_y + 5, if selected { "(Current)"@ } else { "[Current]"@ },
            if selected { palette::WHITE } else { pack_argb(255, 0, 128, 0) })]
    } else {
        Seq::empty()
    }
}

impl SettingsApp {
    /// List row `i` of the dialog whose list is `list_w` wide: the
    /// selection highlight when its theme is selected, the accent chip with
    /// its sunken edge, the name (white on the highlight), and for the
    /// applied theme the `(Current)` or `[Current]` tag.
    pub open spec fn row_shapes(&self, bx: int, by: int, list_w: int, i: int) -> Seq<ShapeV> {
        let selected = self.selected_theme == theme_at(i);
        let applied = self.applied_theme == theme_at(i);
        row_highlight(bx + 18, by + 52 + i * 22, list_w, selected) + row_body(bx + 18, by + 52 + i * 22, i, selected)
            + row_tag(bx + 18, by + 52 + i * 22, list_w, selected, applied)
    }

    /// List rows `0..k`.
    pub open spec fn rows_upto(&self, bx: int, by: int, list_w: int, k: int) -> Seq<ShapeV>
        decreases k,
    {
        if k <= 0 { Seq::empty() } else { self.rows_upto(bx, by, list_w, k - 1) + self.row_shapes(bx, by, list_w, k - 1) }
    }

    /// What the dialog shows in the client area at `(bx, by)`, `bw` by `bh`:
    /// the face, the notebook tab and its sheet, the prompt, the sunken
    /// list with its six rows, and the OK and Apply buttons (Apply grayed
    /// while nothing changed).
    pub open spec fn scene_spec(&self, bx: int, by: int, bw: int, bh: int) -> Seq<ShapeV> {
        let face = palette::RETRO_FACE;
        let black = palette::BLACK;
        let sheet_w = bw - 16;
        let sheet_h = if bh >= 58 { bh - 58 } else { 0 };
        let list_w = if sheet_w >= 20 { sheet_w - 20 } else { 0 };
        let btn_y = by + bh - 28;
        seq![
            sfill(bx, by, bw, bh, face),
            sfill(bx + 10, by + 6, 140, 20, face),
            ShapeV::Raised { x: bx + 10, y: by + 6, w: 140, h: 21 },
            stext(bx + 20, by + 11, "Themes & Scheme"@, black),
            ShapeV::Raised { x: bx + 8, y: by + 25, w: sheet_w, h: sheet_h },
            sfill(bx + 12, by + 25, 136, 1, face),
            stext(bx + 18, by + 35, "Select Desktop Theme Scheme:"@, black),
            sfill(bx + 18, by + 49, list_w, 136, palette::WHITE),
            ShapeV::Sunken { x: bx + 18, y: by + 49, w: list_w, h: 136 }
        ] + self.rows_upto(bx, by, list_w, 6) + seq![
            ShapeV::Button { x: bx + bw - 156, y: btn_y, w: 68, h: 22, pressed: false },
            stext(bx + bw - 132, btn_y + 6, "OK"@, black),
            ShapeV::Button { x: bx + bw - 80, y: btn_y, w: 68, h: 22, pressed: false },
            stext(bx + bw - 64, btn_y + 6, "Apply"@,
                if self.selected_theme != self.applied_theme { black } else { palette::RETRO_SHADOW })
        ]
    }

    /// Adds list row `i`.
    fn add_row(&self, s: &mut Vec<Shape>, bx: isize, by: isize, list_w: usize, i: usize)
        requires
            inner(bx as int),
            inner(by as int),
            4 <= list_w <= 0x1_0000,
            i < 6,
            scene_ok(shapes_view(old(s)@)),
        ensures
            shapes_view(final(s)@) == shapes_view(old(s)@) + self.row_shapes(bx as int, by as int, list_w as int, i as int),
            scene_ok(shapes_view(final(s)@)),
    {
        let white = palette::WHITE;
        let black = palette::BLACK;
        let ghost before = shapes_view(s@);
        let kind = theme_at_exec(i);
        let (name, accent) = theme_entry(i);
        let item_y = by + 52 + (i * 22) as isize;
        let selected = self.selected_theme == kind;
        let list_x = bx + 18;
        if selected {
            add_fill(s, list_x + 2, item_y, list_w - 4, 20, palette::RETRO_SELECTION);
        }
        let ghost p1 = shapes_view(s@);
        assert(p1 =~= before + row_highlight(list_x as int, item_y as int, list_w as int, selected));
        add_fill(s, list_x + 6, item_y + 4, 12, 12, accent.raw);
        add_shape(s, Shape::Sunken { x: list_x + 6, y: item_y + 4, w: 12, h: 12 });
        add_label(s, list_x + 24, item_y + 5, name, if selected { white } else { black });
        let ghost p2 = shapes_view(s@);
        assert(p2 =~= p1 + row_body(list_x as int, item_y as int, i as int, selected));
        let applied = self.applied_theme == kind;
        if applied {
            let tag = if selected { "(Current)" } else { "[Current]" };
            let tag_color = if selected { white } else { Color::from_rgb(0, 128, 0).raw };
            add_label(s, list_x + list_w as isize - 76, item_y + 5, tag, tag_color);
        }
        assert(shapes_view(s@) =~= p2 + row_tag(list_x as int, item_y as int, list_w as int, selected, applied));
        assert(shapes_view(s@) =~= before + self.row_shapes(bx as int, by as int, list_w as int, i as int));
    }

    /// Builds `scene_spec`.
    pub fn scene(&self, bx: isize, by: isize, bw: usize, bh: usize) -> (s: Vec<Shape>)
        requires
            inner(bx as int),
            inner(by as int),
            40 <= bw <= 0x1_0000,
            bh <= 0x1_0000,
        ensures
            shapes_view(s@) == self.scene_spec(bx as int, by as int, bw as int, bh as int),
            scene_ok(shapes_view(s@)),
    {
        let face = palette::RETRO_FACE;
        let black = palette::BLACK;
        let white = palette::WHITE;
        let mut s: Vec<Shape> = Vec::new();
        assert(shapes_view(s@) =~= Seq::<ShapeV>::empty());
        add_fill(&mut s, bx, by, bw, bh, face);
        add_fill(&mut s, bx + 10, by + 6, 140, 20, face);
        add_shape(&mut s, Shape::Raised { x: bx + 10, y: by + 6, w: 140, h: 21 });
        add_label(&mut s, bx + 20, by + 11, "Themes & Scheme", black);
        let sheet_w = bw - 16;
        let sheet_h: usize = if bh >= 58 { bh - 58 } else { 0 };
        add_shape(&mut s, Shape::Raised { x: bx + 8, y: by + 25, w: sheet_w, h: sheet_h });
        add_fill(&mut s, bx + 12, by + 25, 136, 1, face);
        add_label(&mut s, bx + 18, by + 35, "Select Desktop Theme Scheme:", black);
        let list_w: usize = if sheet_w >= 20 { sheet_w - 20 } else { 0 };
        add_fill(&mut s, bx + 18, by + 49, list_w, 136, white);
        add_shape(&mut s, Shape::Sunken { x: bx + 18, y: by + 49, w: list_w, h: 136 });
        let ghost head = shapes_view(s@);
        let mut i: usize = 0;
        while i < 6
            invariant
                inner(bx as int),
                inner(by as int),
                4 <= list_w <= 0x1_0000,
                white == palette::WHITE,
                black == palette::BLACK,
                i <= 6,
                shapes_view(s@) == head + self.rows_upto(bx as int, by as int, list_w as int, i as int),
                scene_ok(shapes_view(s@)),
            decreases 6 - i,
        {
            self.add_row(&mut s, bx, by, list_w, i);
            i = i + 1;
        }
        let ghost rows = shapes_view(s@);
        let btn_y = by + bh as isize - 28;
        let ok_x = bx + bw as isize - 156;
        add_shape(&mut s, Shape::Button { x: ok_x, y: btn_y, w: 68, h: 22, pressed: false });
        add_label(&mut s, ok_x + 24, btn_y + 6, "OK", black);
        let apply_x = bx + bw as isize - 80;
        add_shape(&mut s, Shape::Button { x: apply_x, y: btn_y, w: 68, h: 22, pressed: false });
        let changed = self.selected_theme != self.applied_theme;
        add_label(&mut s, apply_x + 16, btn_y + 6, "Apply", if changed { black } else { palette::RETRO_SHADOW });
        assert(shapes_view(s@) =~= self.scene_spec(bx as int, by as int, bw as int, bh as int));
        s
    }

    /// Draws the dialog into the client area at `(bx, by)`, `bw` by `bh`:
    /// exactly the pixels of `scene_spec`.
    pub fn render(&self, fb: &mut Framebuffer, bx: isize, by: isize, bw: usize, bh: usize)
        requires
            old(fb).wf(),
            inner(bx as int),
            inner(by as int),
            40 <= bw <= 0x1_0000,
            bh <= 0x1_0000,
        ensures
            drawn_over(*old(fb), *final(fb)),
            final(fb).backbuffer@ == painted(*old(fb), old(fb).backbuffer@, self.scene_spec(bx as int, by as int, bw as int, bh as int)),
    {
        let s = self.scene(bx, by, bw, bh);
        paint(fb, s.as_slice());
    }
}
} // verus!
