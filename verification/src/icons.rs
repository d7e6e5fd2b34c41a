//! The pixel-art application icons of the desktop, start menu and taskbar.
use vstd::prelude::*;
use crate::color::{pack_argb, Color};
use crate::framebuffer::{in_rect, Framebuffer};
use crate::palette;
use crate::scene::{lemma_paint_step, painted, sfill, soutline, ShapeV};

verus! {

/// The applications that have an icon (and the power entry of the start menu).
#[derive(Debug, Clone, Copy, PartialEq, Eq, Structural)]
pub enum AppIcon {
    Terminal,
    SysInfo,
    Calculator,
    Notepad,
    Snake,
    Music,
    ImageViewer,
    Settings,
    ElfRunner,
    Doom,
    Power,
}

/// The icon of application number `id` (in start-menu order); any other
/// number gives the power icon.
pub open spec fn icon_for_id(id: int) -> AppIcon {
    if id == 0 { AppIcon::Terminal } else if id == 1 { AppIcon::SysInfo } else if id == 2 { AppIcon::Calculator }
    else if id == 3 { AppIcon::Notepad } else if id == 4 { AppIcon::Snake } else if id == 5 { AppIcon::Music }
    else if id == 6 { AppIcon::ImageViewer } else if id == 7 { AppIcon::Settings } else if id == 8 { AppIcon::ElfRunner }
    else if id == 9 { AppIcon::Doom } else { AppIcon::Power }
}

impl AppIcon {
    /// The icon of application number `id`.
    pub fn from_id(id: usize) -> (icon: AppIcon)
        ensures
            icon == icon_for_id(id as int),
    {
        match id {
            0 => AppIcon::Terminal,
            1 => AppIcon::SysInfo,
            2 => AppIcon::Calculator,
            3 => AppIcon::Notepad,
            4 => AppIcon::Snake,
            5 => AppIcon::Music,
            6 => AppIcon::ImageViewer,
            7 => AppIcon::Settings,
            8 => AppIcon::ElfRunner,
            9 => AppIcon::Doom,
            _ => AppIcon::Power,
        }
    }
}

/// The icon of application number `id`, as `AppIcon::from_id` gives it.
impl From<usize> for AppIcon {
    fn from(id: usize) -> (icon: AppIcon) {
        AppIcon::from_id(id)
    }
}

impl vstd::std_specs::convert::FromSpecImpl<usize> for AppIcon {
    open spec fn obeys_from_spec() -> bool {
        true
    }

    open spec fn from_spec(v: usize) -> AppIcon {
        icon_for_id(v as int)
    }
}

/// Whether `after` equals `before` at every pixel of a `width`-wide buffer
/// outside the `bw` by `bh` box at `bx`, `by`.
pub open spec fn unchanged_outside(before: Seq<u32>, after: Seq<u32>, width: int, bx: int, by: int, bw: int, bh: int) -> bool {
    &&& after.len() == before.len()
    &&& forall|i: int| 0 <= i < before.len() && !in_rect(bx, by, bw, bh, i % width, i / width)
        ==> #[trigger] after[i] == before[i]
}

/// The shapes of the 24-pixel terminal icon at `(x, y)`, in drawing order.
pub open spec fn icon24_terminal_shapes(x: int, y: int) -> Seq<ShapeV> {
    seq![
        sfill(x + 1, y + 1, 22, 22, pack_argb(255, 15, 23, 42)),
        soutline(x + 1, y + 1, 22, 22, pack_argb(255, 71, 85, 105)),
        sfill(x + 2, y + 2, 20, 5, pack_argb(255, 30, 41, 59)),
        sfill(x + 4, y + 4, 1, 1, pack_argb(255, 239, 68, 68)),
        sfill(x + 7, y + 4, 1, 1, pack_argb(255, 234, 179, 8)),
        sfill(x + 10, y + 4, 1, 1, pack_argb(255, 34, 197, 94)),
        sfill(x + 4, y + 11, 1, 1, pack_argb(255, 34, 197, 94)),
        sfill(x + 5, y + 12, 1, 1, pack_argb(255, 34, 197, 94)),
        sfill(x + 6, y + 13, 1, 1, pack_argb(255, 34, 197, 94)),
        sfill(x + 5, y + 14, 1, 1, pack_argb(255, 34, 197, 94)),
        sfill(x + 4, y + 15, 1, 1, pack_argb(255, 34, 197, 94)),
        sfill(x + 9, y + 15, 5, 2, pack_argb(255, 56, 189, 248)),
    ]
}

fn icon24_terminal(fb: &mut Framebuffer, x: isize, y: isize)
    requires
        old(fb).wf(),
        x + 24 <= isize::MAX,
        y + 24 <= isize::MAX,
    ensures
        final(fb).wf(),
        final(fb).same_frame(old(fb)),
        unchanged_outside(old(fb).backbuffer@, final(fb).backbuffer@, old(fb).width as int, x as int, y as int, 24, 24),
        final(fb).backbuffer@ == painted(*old(fb), old(fb).backbuffer@, icon24_terminal_shapes(x as int, y as int)),
{
    let ghost fb0 = *fb;
    let ghost mut drawn: Seq<ShapeV> = Seq::empty();
        // Dark console window frame
        let ghost mid = *fb;
        fb.fill_rect(x + 1, y + 1, 22, 22, Color::from_rgb(15, 23, 42));
        proof {
            lemma_paint_step(fb0, mid, drawn, sfill(x + 1, y + 1, 22, 22, pack_argb(255, 15, 23, 42)));
            drawn = drawn.push(sfill(x + 1, y + 1, 22, 22, pack_argb(255, 15, 23, 42)));
        }
        let ghost mid = *fb;
        fb.draw_rect(x + 1, y + 1, 22, 22, Color::from_rgb(71, 85, 105));
        proof {
            lemma_paint_step(fb0, mid, drawn, soutline(x + 1, y + 1, 22, 22, pack_argb(255, 71, 85, 105)));
            drawn = drawn.push(soutline(x + 1, y + 1, 22, 22, pack_argb(255, 71, 85, 105)));
        }
        // Titlebar
        let ghost mid = *fb;
        fb.fill_rect(x + 2, y + 2, 20, 5, Color::from_rgb(30, 41, 59));
        proof {
            lemma_paint_step(fb0, mid, drawn, sfill(x + 2, y + 2, 20, 5, pack_argb(255, 30, 41, 59)));
            drawn = drawn.push(sfill(x + 2, y + 2, 20, 5, pack_argb(255, 30, 41, 59)));
        }
        let ghost mid = *fb;
        fb.draw_pixel(x + 4, y + 4, Color::from_rgb(239, 68, 68)); // red dot
        proof {
            lemma_paint_step(fb0, mid, drawn, sfill(x + 4, y + 4, 1, 1, pack_argb(255, 239, 68, 68)));
            drawn = drawn.push(sfill(x + 4, y + 4, 1, 1, pack_argb(255, 239, 68, 68)));
        }
        let ghost mid = *fb;
        fb.draw_pixel(x + 7, y + 4, Color::from_rgb(234, 179, 8)); // yellow dot
        proof {
            lemma_paint_step(fb0, mid, drawn, sfill(x + 7, y + 4, 1, 1, pack_argb(255, 234, 179, 8)));
            drawn = drawn.push(sfill(x + 7, y + 4, 1, 1, pack_argb(255, 234, 179, 8)));
        }
        let ghost mid = *fb;
        fb.draw_pixel(x + 10, y + 4, Color::from_rgb(34, 197, 94)); // green dot
        proof {
            lemma_paint_step(fb0, mid, drawn, sfill(x + 10, y + 4, 1, 1, pack_argb(255, 34, 197, 94)));
            drawn = drawn.push(sfill(x + 10, y + 4, 1, 1, pack_argb(255, 34, 197, 94)));
        }
        // Prompt '>_'
        // '>' symbol
        let prompt_color = Color::from_rgb(34, 197, 94);
        let ghost mid = *fb;
        fb.draw_pixel(x + 4, y + 11, prompt_color);
        proof {
            lemma_paint_step(fb0, mid, drawn, sfill(x + 4, y + 11, 1, 1, pack_argb(255, 34, 197, 94)));
            drawn = drawn.push(sfill(x + 4, y + 11, 1, 1, pack_argb(255, 34, 197, 94)));
        }
        let ghost mid = *fb;
        fb.draw_pixel(x + 5, y + 12, prompt_color);
        proof {
            lemma_paint_step(fb0, mid, drawn, sfill(x + 5, y + 12, 1, 1, pack_argb(255, 34, 197, 94)));
            drawn = drawn.push(sfill(x + 5, y + 12, 1, 1, pack_argb(255, 34, 197, 94)));
        }
        let ghost mid = *fb;
        fb.draw_pixel(x + 6, y + 13, prompt_color);
        proof {
            lemma_paint_step(fb0, mid, drawn, sfill(x + 6, y + 13, 1, 1, pack_argb(255, 34, 197, 94)));
            drawn = drawn.push(sfill(x + 6, y + 13, 1, 1, pack_argb(255, 34, 197, 94)));
        }
        let ghost mid = *fb;
        fb.draw_pixel(x + 5, y + 14, prompt_color);
        proof {
            lemma_paint_step(fb0, mid, drawn, sfill(x + 5, y + 14, 1, 1, pack_argb(255, 34, 197, 94)));
            drawn = drawn.push(sfill(x + 5, y + 14, 1, 1, pack_argb(255, 34, 197, 94)));
        }
        let ghost mid = *fb;
        fb.draw_pixel(x + 4, y + 15, prompt_color);
        proof {
            lemma_paint_step(fb0, mid, drawn, sfill(x + 4, y + 15, 1, 1, pack_argb(255, 34, 197, 94)));
            drawn = drawn.push(sfill(x + 4, y + 15, 1, 1, pack_argb(255, 34, 197, 94)));
        }
        // '_' cursor
        let ghost mid = *fb;
        fb.fill_rect(x + 9, y + 15, 5, 2, Color::from_rgb(56, 189, 248));
        proof {
            lemma_paint_step(fb0, mid, drawn, sfill(x + 9, y + 15, 5, 2, pack_argb(255, 56, 189, 248)));
            drawn = drawn.push(sfill(x + 9, y + 15, 5, 2, pack_argb(255, 56, 189, 248)));
        }
    assert(drawn =~= icon24_terminal_shapes(x as int, y as int));
}

/// The shapes of the 24-pixel sysinfo icon at `(x, y)`, in drawing order.
pub open spec fn icon24_sysinfo_shapes(x: int, y: int) -> Seq<ShapeV> {
    seq![
        sfill(x + 4, y, 2, 3, pack_argb(255, 245, 158, 11)),
        sfill(x + 4, y + 21, 2, 3, pack_argb(255, 245, 158, 11)),
        sfill(x + 8, y, 2, 3, pack_argb(255, 245, 158, 11)),
        sfill(x + 8, y + 21, 2, 3, pack_argb(255, 245, 158, 11)),
        sfill(x + 12, y, 2, 3, pack_argb(255, 245, 158, 11)),
        sfill(x + 12, y + 21, 2, 3, pack_argb(255, 245, 158, 11)),
        sfill(x + 16, y, 2, 3, pack_argb(255, 245, 158, 11)),
        sfill(x + 16, y + 21, 2, 3, pack_argb(255, 245, 158, 11)),
        sfill(x + 20, y, 2, 3, pack_argb(255, 245, 158, 11)),
        sfill(x + 20, y + 21, 2, 3, pack_argb(255, 245, 158, 11)),
        sfill(x, y + 4, 3, 2, pack_argb(255, 245, 158, 11)),
        sfill(x + 21, y + 4, 3, 2, pack_argb(255, 245, 158, 11)),
        sfill(x, y + 8, 3, 2, pack_argb(255, 245, 158, 11)),
        sfill(x + 21, y + 8, 3, 2, pack_argb(255, 245, 158, 11)),
        sfill(x, y + 12, 3, 2, pack_argb(255, 245, 158, 11)),
        sfill(x + 21, y + 12, 3, 2, pack_argb(255, 245, 158, 11)),
        sfill(x, y + 16, 3, 2, pack_argb(255, 245, 158, 11)),
        sfill(x + 21, y + 16, 3, 2, pack_argb(255, 245, 158, 11)),
        sfill(x, y + 20, 3, 2, pack_argb(255, 245, 158, 11)),
        sfill(x + 21, y + 20, 3, 2, pack_argb(255, 245, 158, 11)),
        sfill(x + 3, y + 3, 18, 18, pack_argb(255, 30, 41, 59)),
        soutline(x + 3, y + 3, 18, 18, pack_argb(255, 71, 85, 105)),
        sfill(x + 7, y + 7, 10, 10, pack_argb(255, 37, 99, 235)),
        soutline(x + 7, y + 7, 10, 10, pack_argb(255, 96, 165, 250)),
        sfill(x + 10, y + 10, 4, 4, palette::WHITE),
    ]
}

fn icon24_sysinfo(fb: &mut Framebuffer, x: isize, y: isize)
    requires
        old(fb).wf(),
        x + 24 <= isize::MAX,
        y + 24 <= isize::MAX,
    ensures
        final(fb).wf(),
        final(fb).same_frame(old(fb)),
        unchanged_outside(old(fb).backbuffer@, final(fb).backbuffer@, old(fb).width as int, x as int, y as int, 24, 24),
        final(fb).backbuffer@ == painted(*old(fb), old(fb).backbuffer@, icon24_sysinfo_shapes(x as int, y as int)),
{
    let ghost fb0 = *fb;
    let ghost mut drawn: Seq<ShapeV> = Seq::empty();
        // CPU Chip outline
        let chip_color = Color::from_rgb(30, 41, 59);
        let gold_pin = Color::from_rgb(245, 158, 11);
        let core_color = Color::from_rgb(37, 99, 235);
        // Gold pins (top & bottom)
        // Gold pins (top & bottom)
        let ghost mid = *fb;
        fb.fill_rect(x + 4, y, 2, 3, gold_pin);
        proof {
            lemma_paint_step(fb0, mid, drawn, sfill(x + 4, y as int, 2, 3, pack_argb(255, 245, 158, 11)));
            drawn = drawn.push(sfill(x + 4, y as int, 2, 3, pack_argb(255, 245, 158, 11)));
        }
        let ghost mid = *fb;
        fb.fill_rect(x + 4, y + 21, 2, 3, gold_pin);
        proof {
            lemma_paint_step(fb0, mid, drawn, sfill(x + 4, y + 21, 2, 3, pack_argb(255, 245, 158, 11)));
            drawn = drawn.push(sfill(x + 4, y + 21, 2, 3, pack_argb(255, 245, 158, 11)));
        }
        let ghost mid = *fb;
        fb.fill_rect(x + 8, y, 2, 3, gold_pin);
        proof {
            lemma_paint_step(fb0, mid, drawn, sfill(x + 8, y as int, 2, 3, pack_argb(255, 245, 158, 11)));
            drawn = drawn.push(sfill(x + 8, y as int, 2, 3, pack_argb(255, 245, 158, 11)));
        }
        let ghost mid = *fb;
        fb.fill_rect(x + 8, y + 21, 2, 3, gold_pin);
        proof {
            lemma_paint_step(fb0, mid, drawn, sfill(x + 8, y + 21, 2, 3, pack_argb(255, 245, 158, 11)));
            drawn = drawn.push(sfill(x + 8, y + 21, 2, 3, pack_argb(255, 245, 158, 11)));
        }
        let ghost mid = *fb;
        fb.fill_rect(x + 12, y, 2, 3, gold_pin);
        proof {
            lemma_paint_step(fb0, mid, drawn, sfill(x + 12, y as int, 2, 3, pack_argb(255, 245, 158, 11)));
            drawn = drawn.push(sfill(x + 12, y as int, 2, 3, pack_argb(255, 245, 158, 11)));
        }
        let ghost mid = *fb;
        fb.fill_rect(x + 12, y + 21, 2, 3, gold_pin);
        proof {
            lemma_paint_step(fb0, mid, drawn, sfill(x + 12, y + 21, 2, 3, pack_argb(255, 245, 158, 11)));
            drawn = drawn.push(sfill(x + 12, y + 21, 2, 3, pack_argb(255, 245, 158, 11)));
        }
        let ghost mid = *fb;
        fb.fill_rect(x + 16, y, 2, 3, gold_pin);
        proof {
            lemma_paint_step(fb0, mid, drawn, sfill(x + 16, y as int, 2, 3, pack_argb(255, 245, 158, 11)));
            drawn = drawn.push(sfill(x + 16, y as int, 2, 3, pack_argb(255, 245, 158, 11)));
        }
        let ghost mid = *fb;
        fb.fill_rect(x + 16, y + 21, 2, 3, gold_pin);
        proof {
            lemma_paint_step(fb0, mid, drawn, sfill(x + 16, y + 21, 2, 3, pack_argb(255, 245, 158, 11)));
            drawn = drawn.push(sfill(x + 16, y + 21, 2, 3, pack_argb(255, 245, 158, 11)));
        }
        let ghost mid = *fb;
        fb.fill_rect(x + 20, y, 2, 3, gold_pin);
        proof {
            lemma_paint_step(fb0, mid, drawn, sfill(x + 20, y as int, 2, 3, pack_argb(255, 245, 158, 11)));
            drawn = drawn.push(sfill(x + 20, y as int, 2, 3, pack_argb(255, 245, 158, 11)));
        }
        let ghost mid = *fb;
        fb.fill_rect(x + 20, y + 21, 2, 3, gold_pin);
        proof {
            lemma_paint_step(fb0, mid, drawn, sfill(x + 20, y + 21, 2, 3, pack_argb(255, 245, 158, 11)));
            drawn = drawn.push(sfill(x + 20, y + 21, 2, 3, pack_argb(255, 245, 158, 11)));
        }
        // Gold pins (left & right)
        let ghost mid = *fb;
        fb.fill_rect(x, y + 4, 3, 2, gold_pin);
        proof {
            lemma_paint_step(fb0, mid, drawn, sfill(x as int, y + 4, 3, 2, pack_argb(255, 245, 158, 11)));
            drawn = drawn.push(sfill(x as int, y + 4, 3, 2, pack_argb(255, 245, 158, 11)));
        }
        let ghost mid = *fb;
        fb.fill_rect(x + 21, y + 4, 3, 2, gold_pin);
        proof {
            lemma_paint_step(fb0, mid, drawn, sfill(x + 21, y + 4, 3, 2, pack_argb(255, 245, 158, 11)));
            drawn = drawn.push(sfill(x + 21, y + 4, 3, 2, pack_argb(255, 245, 158, 11)));
        }
        let ghost mid = *fb;
        fb.fill_rect(x, y + 8, 3, 2, gold_pin);
        proof {
            lemma_paint_step(fb0, mid, drawn, sfill(x as int, y + 8, 3, 2, pack_argb(255, 245, 158, 11)));
            drawn = drawn.push(sfill(x as int, y + 8, 3, 2, pack_argb(255, 245, 158, 11)));
        }
        let ghost mid = *fb;
        fb.fill_rect(x + 21, y + 8, 3, 2, gold_pin);
        proof {
            lemma_paint_step(fb0, mid, drawn, sfill(x + 21, y + 8, 3, 2, pack_argb(255, 245, 158, 11)));
            drawn = drawn.push(sfill(x + 21, y + 8, 3, 2, pack_argb(255, 245, 158, 11)));
        }
        let ghost mid = *fb;
        fb.fill_rect(x, y + 12, 3, 2, gold_pin);
        proof {
            lemma_paint_step(fb0, mid, drawn, sfill(x as int, y + 12, 3, 2, pack_argb(255, 245, 158, 11)));
            drawn = drawn.push(sfill(x as int, y + 12, 3, 2, pack_argb(255, 245, 158, 11)));
        }
        let ghost mid = *fb;
        fb.fill_rect(x + 21, y + 12, 3, 2, gold_pin);
        proof {
            lemma_paint_step(fb0, mid, drawn, sfill(x + 21, y + 12, 3, 2, pack_argb(255, 245, 158, 11)));
            drawn = drawn.push(sfill(x + 21, y + 12, 3, 2, pack_argb(255, 245, 158, 11)));
        }
        let ghost mid = *fb;
        fb.fill_rect(x, y + 16, 3, 2, gold_pin);
        proof {
            lemma_paint_step(fb0, mid, drawn, sfill(x as int, y + 16, 3, 2, pack_argb(255, 245, 158, 11)));
            drawn = drawn.push(sfill(x as int, y + 16, 3, 2, pack_argb(255, 245, 158, 11)));
        }
        let ghost mid = *fb;
        fb.fill_rect(x + 21, y + 16, 3, 2, gold_pin);
        proof {
            lemma_paint_step(fb0, mid, drawn, sfill(x + 21, y + 16, 3, 2, pack_argb(255, 245, 158, 11)));
            drawn = drawn.push(sfill(x + 21, y + 16, 3, 2, pack_argb(255, 245, 158, 11)));
        }
        let ghost mid = *fb;
        fb.fill_rect(x, y + 20, 3, 2, gold_pin);
        proof {
            lemma_paint_step(fb0, mid, drawn, sfill(x as int, y + 20, 3, 2, pack_argb(255, 245, 158, 11)));
            drawn = drawn.push(sfill(x as int, y + 20, 3, 2, pack_argb(255, 245, 158, 11)));
        }
        let ghost mid = *fb;
        fb.fill_rect(x + 21, y + 20, 3, 2, gold_pin);
        proof {
            lemma_paint_step(fb0, mid, drawn, sfill(x + 21, y + 20, 3, 2, pack_argb(255, 245, 158, 11)));
            drawn = drawn.push(sfill(x + 21, y + 20, 3, 2, pack_argb(255, 245, 158, 11)));
        }
        // Ceramic package body
        let ghost mid = *fb;
        fb.fill_rect(x + 3, y + 3, 18, 18, chip_color);
        proof {
            lemma_paint_step(fb0, mid, drawn, sfill(x + 3, y + 3, 18, 18, pack_argb(255, 30, 41, 59)));
            drawn = drawn.push(sfill(x + 3, y + 3, 18, 18, pack_argb(255, 30, 41, 59)));
        }
        let ghost mid = *fb;
        fb.draw_rect(x + 3, y + 3, 18, 18, Color::from_rgb(71, 85, 105));
        proof {
            lemma_paint_step(fb0, mid, drawn, soutline(x + 3, y + 3, 18, 18, pack_argb(255, 71, 85, 105)));
            drawn = drawn.push(soutline(x + 3, y + 3, 18, 18, pack_argb(255, 71, 85, 105)));
        }
        // Silicon Core die
        let ghost mid = *fb;
        fb.fill_rect(x + 7, y + 7, 10, 10, core_color);
        proof {
            lemma_paint_step(fb0, mid, drawn, sfill(x + 7, y + 7, 10, 10, pack_argb(255, 37, 99, 235)));
            drawn = drawn.push(sfill(x + 7, y + 7, 10, 10, pack_argb(255, 37, 99, 235)));
        }
        let ghost mid = *fb;
        fb.draw_rect(x + 7, y + 7, 10, 10, Color::from_rgb(96, 165, 250));
        proof {
            lemma_paint_step(fb0, mid, drawn, soutline(x + 7, y + 7, 10, 10, pack_argb(255, 96, 165, 250)));
            drawn = drawn.push(soutline(x + 7, y + 7, 10, 10, pack_argb(255, 96, 165, 250)));
        }
        // Center indicator
        let ghost mid = *fb;
        fb.fill_rect(x + 10, y + 10, 4, 4, Color::from_raw(palette::WHITE));
        proof {
            lemma_paint_step(fb0, mid, drawn, sfill(x + 10, y + 10, 4, 4, palette::WHITE));
            drawn = drawn.push(sfill(x + 10, y + 10, 4, 4, palette::WHITE));
        }
    assert(drawn =~= icon24_sysinfo_shapes(x as int, y as int));
}

/// The shapes of the 24-pixel calculator icon at `(x, y)`, in drawing order.
pub open spec fn icon24_calculator_shapes(x: int, y: int) -> Seq<ShapeV> {
    seq![
        sfill(x + 2, y + 1, 20, 22, pack_argb(255, 30, 41, 59)),
        soutline(x + 2, y + 1, 20, 22, pack_argb(255, 100, 116, 139)),
        sfill(x + 5, y + 3, 14, 5, pack_argb(255, 20, 83, 45)),
        soutline(x + 5, y + 3, 14, 5, pack_argb(255, 34, 197, 94)),
        sfill(x + 13, y + 5, 4, 1, pack_argb(255, 134, 239, 172)),
        sfill(x + 5, y + 10, 3, 3, pack_argb(255, 71, 85, 105)),
        sfill(x + 9, y + 10, 3, 3, pack_argb(255, 71, 85, 105)),
        sfill(x + 13, y + 10, 3, 3, pack_argb(255, 245, 158, 11)),
        sfill(x + 5, y + 14, 3, 3, pack_argb(255, 71, 85, 105)),
        sfill(x + 9, y + 14, 3, 3, pack_argb(255, 71, 85, 105)),
        sfill(x + 13, y + 14, 3, 3, pack_argb(255, 245, 158, 11)),
        sfill(x + 5, y + 18, 3, 3, pack_argb(255, 71, 85, 105)),
        sfill(x + 9, y + 18, 3, 3, pack_argb(255, 14, 165, 233)),
        sfill(x + 13, y + 18, 3, 3, pack_argb(255, 245, 158, 11)),
    ]
}

fn icon24_calculator(fb: &mut Framebuffer, x: isize, y: isize)
    requires
        old(fb).wf(),
        x + 24 <= isize::MAX,
        y + 24 <= isize::MAX,
    ensures
        final(fb).wf(),
        final(fb).same_frame(old(fb)),
        unchanged_outside(old(fb).backbuffer@, final(fb).backbuffer@, old(fb).width as int, x as int, y as int, 24, 24),
        final(fb).backbuffer@ == painted(*old(fb), old(fb).backbuffer@, icon24_calculator_shapes(x as int, y as int)),
{
    let ghost fb0 = *fb;
    let ghost mut drawn: Seq<ShapeV> = Seq::empty();
        // Calculator body
        let ghost mid = *fb;
        fb.fill_rect(x + 2, y + 1, 20, 22, Color::from_rgb(30, 41, 59));
        proof {
            lemma_paint_step(fb0, mid, drawn, sfill(x + 2, y + 1, 20, 22, pack_argb(255, 30, 41, 59)));
            drawn = drawn.push(sfill(x + 2, y + 1, 20, 22, pack_argb(255, 30, 41, 59)));
        }
        let ghost mid = *fb;
        fb.draw_rect(x + 2, y + 1, 20, 22, Color::from_rgb(100, 116, 139));
        proof {
            lemma_paint_step(fb0, mid, drawn, soutline(x + 2, y + 1, 20, 22, pack_argb(255, 100, 116, 139)));
            drawn = drawn.push(soutline(x + 2, y + 1, 20, 22, pack_argb(255, 100, 116, 139)));
        }
        // LCD screen
        let ghost mid = *fb;
        fb.fill_rect(x + 5, y + 3, 14, 5, Color::from_rgb(20, 83, 45));
        proof {
            lemma_paint_step(fb0, mid, drawn, sfill(x + 5, y + 3, 14, 5, pack_argb(255, 20, 83, 45)));
            drawn = drawn.push(sfill(x + 5, y + 3, 14, 5, pack_argb(255, 20, 83, 45)));
        }
        let ghost mid = *fb;
        fb.draw_rect(x + 5, y + 3, 14, 5, Color::from_rgb(34, 197, 94));
        proof {
            lemma_paint_step(fb0, mid, drawn, soutline(x + 5, y + 3, 14, 5, pack_argb(255, 34, 197, 94)));
            drawn = drawn.push(soutline(x + 5, y + 3, 14, 5, pack_argb(255, 34, 197, 94)));
        }
        // Digits on LCD
        let ghost mid = *fb;
        fb.fill_rect(x + 13, y + 5, 4, 1, Color::from_rgb(134, 239, 172));
        proof {
            lemma_paint_step(fb0, mid, drawn, sfill(x + 13, y + 5, 4, 1, pack_argb(255, 134, 239, 172)));
            drawn = drawn.push(sfill(x + 13, y + 5, 4, 1, pack_argb(255, 134, 239, 172)));
        }
        // Button grid (3x3)
        let btn_color = Color::from_rgb(71, 85, 105);
        let ghost mid = *fb;
        fb.fill_rect(x + 5, y + 10, 3, 3, btn_color);
        proof {
            lemma_paint_step(fb0, mid, drawn, sfill(x + 5, y + 10, 3, 3, pack_argb(255, 71, 85, 105)));
            drawn = drawn.push(sfill(x + 5, y + 10, 3, 3, pack_argb(255, 71, 85, 105)));
        }
        let ghost mid = *fb;
        fb.fill_rect(x + 9, y + 10, 3, 3, btn_color);
        proof {
            lemma_paint_step(fb0, mid, drawn, sfill(x + 9, y + 10, 3, 3, pack_argb(255, 71, 85, 105)));
            drawn = drawn.push(sfill(x + 9, y + 10, 3, 3, pack_argb(255, 71, 85, 105)));
        }
        let ghost mid = *fb;
        fb.fill_rect(x + 13, y + 10, 3, 3, Color::from_rgb(245, 158, 11));
        proof {
            lemma_paint_step(fb0, mid, drawn, sfill(x + 13, y + 10, 3, 3, pack_argb(255, 245, 158, 11)));
            drawn = drawn.push(sfill(x + 13, y + 10, 3, 3, pack_argb(255, 245, 158, 11)));
        }
        let ghost mid = *fb;
        fb.fill_rect(x + 5, y + 14, 3, 3, btn_color);
        proof {
            lemma_paint_step(fb0, mid, drawn, sfill(x + 5, y + 14, 3, 3, pack_argb(255, 71, 85, 105)));
            drawn = drawn.push(sfill(x + 5, y + 14, 3, 3, pack_argb(255, 71, 85, 105)));
        }
        let ghost mid = *fb;
        fb.fill_rect(x + 9, y + 14, 3, 3, btn_color);
        proof {
            lemma_paint_step(fb0, mid, drawn, sfill(x + 9, y + 14, 3, 3, pack_argb(255, 71, 85, 105)));
            drawn = drawn.push(sfill(x + 9, y + 14, 3, 3, pack_argb(255, 71, 85, 105)));
        }
        let ghost mid = *fb;
        fb.fill_rect(x + 13, y + 14, 3, 3, Color::from_rgb(245, 158, 11));
        proof {
            lemma_paint_step(fb0, mid, drawn, sfill(x + 13, y + 14, 3, 3, pack_argb(255, 245, 158, 11)));
            drawn = drawn.push(sfill(x + 13, y + 14, 3, 3, pack_argb(255, 245, 158, 11)));
        }
        let ghost mid = *fb;
        fb.fill_rect(x + 5, y + 18, 3, 3, btn_color);
        proof {
            lemma_paint_step(fb0, mid, drawn, sfill(x + 5, y + 18, 3, 3, pack_argb(255, 71, 85, 105)));
            drawn = drawn.push(sfill(x + 5, y + 18, 3, 3, pack_argb(255, 71, 85, 105)));
        }
        let ghost mid = *fb;
        fb.fill_rect(x + 9, y + 18, 3, 3, Color::from_rgb(14, 165, 233));
        proof {
            lemma_paint_step(fb0, mid, drawn, sfill(x + 9, y + 18, 3, 3, pack_argb(255, 14, 165, 233)));
            drawn = drawn.push(sfill(x + 9, y + 18, 3, 3, pack_argb(255, 14, 165, 233)));
        }
        let ghost mid = *fb;
        fb.fill_rect(x + 13, y + 18, 3, 3, Color::from_rgb(245, 158, 11));
        proof {
            lemma_paint_step(fb0, mid, drawn, sfill(x + 13, y + 18, 3, 3, pack_argb(255, 245, 158, 11)));
            drawn = drawn.push(sfill(x + 13, y + 18, 3, 3, pack_argb(255, 245, 158, 11)));
        }
    assert(drawn =~= icon24_calculator_shapes(x as int, y as int));
}

/// The shapes of the 24-pixel notepad icon at `(x, y)`, in drawing order.
pub open spec fn icon24_notepad_shapes(x: int, y: int) -> Seq<ShapeV> {
    seq![
        sfill(x + 3, y + 1, 15, 22, pack_argb(255, 248, 250, 252)),
        soutline(x + 3, y + 1, 15, 22, pack_argb(255, 148, 163, 184)),
        sfill(x + 14, y + 1, 4, 4, pack_argb(255, 203, 213, 225)),
        sfill(x + 6, y + 6, 8, 1, pack_argb(255, 59, 130, 246)),
        sfill(x + 6, y + 9, 9, 1, pack_argb(255, 100, 116, 139)),
        sfill(x + 6, y + 12, 10, 1, pack_argb(255, 100, 116, 139)),
        sfill(x + 6, y + 15, 7, 1, pack_argb(255, 100, 116, 139)),
        sfill(x + 6, y + 18, 9, 1, pack_argb(255, 100, 116, 139)),
        sfill(x + 14, y + 14, 3, 3, pack_argb(255, 234, 179, 8)),
        sfill(x + 16, y + 12, 3, 3, pack_argb(255, 234, 179, 8)),
        sfill(x + 18, y + 10, 3, 3, pack_argb(255, 244, 63, 94)),
        sfill(x + 13, y + 17, 1, 1, pack_argb(255, 15, 23, 42)),
    ]
}

fn icon24_notepad(fb: &mut Framebuffer, x: isize, y: isize)
    requires
        old(fb).wf(),
        x + 24 <= isize::MAX,
        y + 24 <= isize::MAX,
    ensures
        final(fb).wf(),
        final(fb).same_frame(old(fb)),
        unchanged_outside(old(fb).backbuffer@, final(fb).backbuffer@, old(fb).width as int, x as int, y as int, 24, 24),
        final(fb).backbuffer@ == painted(*old(fb), old(fb).backbuffer@, icon24_notepad_shapes(x as int, y as int)),
{
    let ghost fb0 = *fb;
    let ghost mut drawn: Seq<ShapeV> = Seq::empty();
        // Document paper
        let ghost mid = *fb;
        fb.fill_rect(x + 3, y + 1, 15, 22, Color::from_rgb(248, 250, 252));
        proof {
            lemma_paint_step(fb0, mid, drawn, sfill(x + 3, y + 1, 15, 22, pack_argb(255, 248, 250, 252)));
            drawn = drawn.push(sfill(x + 3, y + 1, 15, 22, pack_argb(255, 248, 250, 252)));
        }
        let ghost mid = *fb;
        fb.draw_rect(x + 3, y + 1, 15, 22, Color::from_rgb(148, 163, 184));
        proof {
            lemma_paint_step(fb0, mid, drawn, soutline(x + 3, y + 1, 15, 22, pack_argb(255, 148, 163, 184)));
            drawn = drawn.push(soutline(x + 3, y + 1, 15, 22, pack_argb(255, 148, 163, 184)));
        }
        // Folded top right corner
        let ghost mid = *fb;
        fb.fill_rect(x + 14, y + 1, 4, 4, Color::from_rgb(203, 213, 225));
        proof {
            lemma_paint_step(fb0, mid, drawn, sfill(x + 14, y + 1, 4, 4, pack_argb(255, 203, 213, 225)));
            drawn = drawn.push(sfill(x + 14, y + 1, 4, 4, pack_argb(255, 203, 213, 225)));
        }
        // Text lines
        let line_color = Color::from_rgb(100, 116, 139);
        let ghost mid = *fb;
        fb.fill_rect(x + 6, y + 6, 8, 1, Color::from_rgb(59, 130, 246)); // Title blue
        proof {
            lemma_paint_step(fb0, mid, drawn, sfill(x + 6, y + 6, 8, 1, pack_argb(255, 59, 130, 246)));
            drawn = drawn.push(sfill(x + 6, y + 6, 8, 1, pack_argb(255, 59, 130, 246)));
        }
        let ghost mid = *fb;
        fb.fill_rect(x + 6, y + 9, 9, 1, line_color);
        proof {
            lemma_paint_step(fb0, mid, drawn, sfill(x + 6, y + 9, 9, 1, pack_argb(255, 100, 116, 139)));
            drawn = drawn.push(sfill(x + 6, y + 9, 9, 1, pack_argb(255, 100, 116, 139)));
        }
        let ghost mid = *fb;
        fb.fill_rect(x + 6, y + 12, 10, 1, line_color);
        proof {
            lemma_paint_step(fb0, mid, drawn, sfill(x + 6, y + 12, 10, 1, pack_argb(255, 100, 116, 139)));
            drawn = drawn.push(sfill(x + 6, y + 12, 10, 1, pack_argb(255, 100, 116, 139)));
        }
        let ghost mid = *fb;
        fb.fill_rect(x + 6, y + 15, 7, 1, line_color);
        proof {
            lemma_paint_step(fb0, mid, drawn, sfill(x + 6, y + 15, 7, 1, pack_argb(255, 100, 116, 139)));
            drawn = drawn.push(sfill(x + 6, y + 15, 7, 1, pack_argb(255, 100, 116, 139)));
        }
        let ghost mid = *fb;
        fb.fill_rect(x + 6, y + 18, 9, 1, line_color);
        proof {
            lemma_paint_step(fb0, mid, drawn, sfill(x + 6, y + 18, 9, 1, pack_argb(255, 100, 116, 139)));
            drawn = drawn.push(sfill(x + 6, y + 18, 9, 1, pack_argb(255, 100, 116, 139)));
        }
        // Yellow pencil angled across corner
        let pencil_color = Color::from_rgb(234, 179, 8);
        let ghost mid = *fb;
        fb.fill_rect(x + 14, y + 14, 3, 3, pencil_color);
        proof {
            lemma_paint_step(fb0, mid, drawn, sfill(x + 14, y + 14, 3, 3, pack_argb(255, 234, 179, 8)));
            drawn = drawn.push(sfill(x + 14, y + 14, 3, 3, pack_argb(255, 234, 179, 8)));
        }
        let ghost mid = *fb;
        fb.fill_rect(x + 16, y + 12, 3, 3, pencil_color);
        proof {
            lemma_paint_step(fb0, mid, drawn, sfill(x + 16, y + 12, 3, 3, pack_argb(255, 234, 179, 8)));
            drawn = drawn.push(sfill(x + 16, y + 12, 3, 3, pack_argb(255, 234, 179, 8)));
        }
        let ghost mid = *fb;
        fb.fill_rect(x + 18, y + 10, 3, 3, Color::from_rgb(244, 63, 94)); // Eraser
        proof {
            lemma_paint_step(fb0, mid, drawn, sfill(x + 18, y + 10, 3, 3, pack_argb(255, 244, 63, 94)));
            drawn = drawn.push(sfill(x + 18, y + 10, 3, 3, pack_argb(255, 244, 63, 94)));
        }
        let ghost mid = *fb;
        fb.draw_pixel(x + 13, y + 17, Color::from_rgb(15, 23, 42)); // Tip
        proof {
            lemma_paint_step(fb0, mid, drawn, sfill(x + 13, y + 17, 1, 1, pack_argb(255, 15, 23, 42)));
            drawn = drawn.push(sfill(x + 13, y + 17, 1, 1, pack_argb(255, 15, 23, 42)));
        }
    assert(drawn =~= icon24_notepad_shapes(x as int, y as int));
}

/// The shapes of the 24-pixel snake icon at `(x, y)`, in drawing order.
pub open spec fn icon24_snake_shapes(x: int, y: int) -> Seq<ShapeV> {
    seq![
        sfill(x + 1, y + 1, 22, 22, pack_argb(255, 15, 23, 42)),
        soutline(x + 1, y + 1, 22, 22, pack_argb(255, 51, 65, 85)),
        sfill(x + 4, y + 16, 3, 3, pack_argb(255, 34, 197, 94)),
        sfill(x + 7, y + 16, 3, 3, pack_argb(255, 34, 197, 94)),
        sfill(x + 10, y + 16, 3, 3, pack_argb(255, 34, 197, 94)),
        sfill(x + 10, y + 13, 3, 3, pack_argb(255, 34, 197, 94)),
        sfill(x + 10, y + 10, 3, 3, pack_argb(255, 34, 197, 94)),
        sfill(x + 13, y + 10, 3, 3, pack_argb(255, 34, 197, 94)),
        sfill(x + 16, y + 10, 3, 3, pack_argb(255, 34, 197, 94)),
        sfill(x + 16, y + 7, 3, 3, pack_argb(255, 74, 222, 128)),
        sfill(x + 17, y + 7, 1, 1, pack_argb(255, 15, 23, 42)),
        sfill(x + 5, y + 5, 4, 4, pack_argb(255, 239, 68, 68)),
        sfill(x + 6, y + 4, 1, 1, pack_argb(255, 34, 197, 94)),
    ]
}

fn icon24_snake(fb: &mut Framebuffer, x: isize, y: isize)
    requires
        old(fb).wf(),
        x + 24 <= isize::MAX,
        y + 24 <= isize::MAX,
    ensures
        final(fb).wf(),
        final(fb).same_frame(old(fb)),
        unchanged_outside(old(fb).backbuffer@, final(fb).backbuffer@, old(fb).width as int, x as int, y as int, 24, 24),
        final(fb).backbuffer@ == painted(*old(fb), old(fb).backbuffer@, icon24_snake_shapes(x as int, y as int)),
{
    let ghost fb0 = *fb;
    let ghost mut drawn: Seq<ShapeV> = Seq::empty();
        // Dark field
        let ghost mid = *fb;
        fb.fill_rect(x + 1, y + 1, 22, 22, Color::from_rgb(15, 23, 42));
        proof {
            lemma_paint_step(fb0, mid, drawn, sfill(x + 1, y + 1, 22, 22, pack_argb(255, 15, 23, 42)));
            drawn = drawn.push(sfill(x + 1, y + 1, 22, 22, pack_argb(255, 15, 23, 42)));
        }
        let ghost mid = *fb;
        fb.draw_rect(x + 1, y + 1, 22, 22, Color::from_rgb(51, 65, 85));
        proof {
            lemma_paint_step(fb0, mid, drawn, soutline(x + 1, y + 1, 22, 22, pack_argb(255, 51, 65, 85)));
            drawn = drawn.push(soutline(x + 1, y + 1, 22, 22, pack_argb(255, 51, 65, 85)));
        }
        // Green snake segments
        let snake_c = Color::from_rgb(34, 197, 94);
        let snake_head = Color::from_rgb(74, 222, 128);
        // Snake body path
        let ghost mid = *fb;
        fb.fill_rect(x + 4, y + 16, 3, 3, snake_c);
        proof {
            lemma_paint_step(fb0, mid, drawn, sfill(x + 4, y + 16, 3, 3, pack_argb(255, 34, 197, 94)));
            drawn = drawn.push(sfill(x + 4, y + 16, 3, 3, pack_argb(255, 34, 197, 94)));
        }
        let ghost mid = *fb;
        fb.fill_rect(x + 7, y + 16, 3, 3, snake_c);
        proof {
            lemma_paint_step(fb0, mid, drawn, sfill(x + 7, y + 16, 3, 3, pack_argb(255, 34, 197, 94)));
            drawn = drawn.push(sfill(x + 7, y + 16, 3, 3, pack_argb(255, 34, 197, 94)));
        }
        let ghost mid = *fb;
        fb.fill_rect(x + 10, y + 16, 3, 3, snake_c);
        proof {
            lemma_paint_step(fb0, mid, drawn, sfill(x + 10, y + 16, 3, 3, pack_argb(255, 34, 197, 94)));
            drawn = drawn.push(sfill(x + 10, y + 16, 3, 3, pack_argb(255, 34, 197, 94)));
        }
        let ghost mid = *fb;
        fb.fill_rect(x + 10, y + 13, 3, 3, snake_c);
        proof {
            lemma_paint_step(fb0, mid, drawn, sfill(x + 10, y + 13, 3, 3, pack_argb(255, 34, 197, 94)));
            drawn = drawn.push(sfill(x + 10, y + 13, 3, 3, pack_argb(255, 34, 197, 94)));
        }
        let ghost mid = *fb;
        fb.fill_rect(x + 10, y + 10, 3, 3, snake_c);
        proof {
            lemma_paint_step(fb0, mid, drawn, sfill(x + 10, y + 10, 3, 3, pack_argb(255, 34, 197, 94)));
            drawn = drawn.push(sfill(x + 10, y + 10, 3, 3, pack_argb(255, 34, 197, 94)));
        }
        let ghost mid = *fb;
        fb.fill_rect(x + 13, y + 10, 3, 3, snake_c);
        proof {
            lemma_paint_step(fb0, mid, drawn, sfill(x + 13, y + 10, 3, 3, pack_argb(255, 34, 197, 94)));
            drawn = drawn.push(sfill(x + 13, y + 10, 3, 3, pack_argb(255, 34, 197, 94)));
        }
        let ghost mid = *fb;
        fb.fill_rect(x + 16, y + 10, 3, 3, snake_c);
        proof {
            lemma_paint_step(fb0, mid, drawn, sfill(x + 16, y + 10, 3, 3, pack_argb(255, 34, 197, 94)));
            drawn = drawn.push(sfill(x + 16, y + 10, 3, 3, pack_argb(255, 34, 197, 94)));
        }
        let ghost mid = *fb;
        fb.fill_rect(x + 16, y + 7, 3, 3, snake_head);
        proof {
            lemma_paint_step(fb0, mid, drawn, sfill(x + 16, y + 7, 3, 3, pack_argb(255, 74, 222, 128)));
            drawn = drawn.push(sfill(x + 16, y + 7, 3, 3, pack_argb(255, 74, 222, 128)));
        }
        // Snake eyes
        let ghost mid = *fb;
        fb.draw_pixel(x + 17, y + 7, Color::from_rgb(15, 23, 42));
        proof {
            lemma_paint_step(fb0, mid, drawn, sfill(x + 17, y + 7, 1, 1, pack_argb(255, 15, 23, 42)));
            drawn = drawn.push(sfill(x + 17, y + 7, 1, 1, pack_argb(255, 15, 23, 42)));
        }
        // Red apple food
        let ghost mid = *fb;
        fb.fill_rect(x + 5, y + 5, 4, 4, Color::from_rgb(239, 68, 68));
        proof {
            lemma_paint_step(fb0, mid, drawn, sfill(x + 5, y + 5, 4, 4, pack_argb(255, 239, 68, 68)));
            drawn = drawn.push(sfill(x + 5, y + 5, 4, 4, pack_argb(255, 239, 68, 68)));
        }
        let ghost mid = *fb;
        fb.draw_pixel(x + 6, y + 4, Color::from_rgb(34, 197, 94)); // leaf
        proof {
            lemma_paint_step(fb0, mid, drawn, sfill(x + 6, y + 4, 1, 1, pack_argb(255, 34, 197, 94)));
            drawn = drawn.push(sfill(x + 6, y + 4, 1, 1, pack_argb(255, 34, 197, 94)));
        }
    assert(drawn =~= icon24_snake_shapes(x as int, y as int));
}

/// The shapes of the 24-pixel music icon at `(x, y)`, in drawing order.
pub open spec fn icon24_music_shapes(x: int, y: int) -> Seq<ShapeV> {
    seq![
        sfill(x + 1, y + 1, 22, 22, pack_argb(255, 24, 24, 37)),
        soutline(x + 1, y + 1, 22, 22, pack_argb(255, 168, 85, 247)),
        sfill(x + 5, y + 14, 5, 4, pack_argb(255, 244, 63, 94)),
        sfill(x + 8, y + 5, 2, 10, pack_argb(255, 244, 63, 94)),
        sfill(x + 10, y + 5, 4, 3, pack_argb(255, 244, 63, 94)),
        sfill(x + 12, y + 7, 3, 3, pack_argb(255, 244, 63, 94)),
        sfill(x + 14, y + 13, 2, 6, pack_argb(255, 56, 189, 248)),
        sfill(x + 17, y + 9, 2, 10, pack_argb(255, 34, 197, 94)),
        sfill(x + 20, y + 11, 2, 8, pack_argb(255, 245, 158, 11)),
    ]
}

fn icon24_music(fb: &mut Framebuffer, x: isize, y: isize)
    requires
        old(fb).wf(),
        x + 24 <= isize::MAX,
        y + 24 <= isize::MAX,
    ensures
        final(fb).wf(),
        final(fb).same_frame(old(fb)),
        unchanged_outside(old(fb).backbuffer@, final(fb).backbuffer@, old(fb).width as int, x as int, y as int, 24, 24),
        final(fb).backbuffer@ == painted(*old(fb), old(fb).backbuffer@, icon24_music_shapes(x as int, y as int)),
{
    let ghost fb0 = *fb;
    let ghost mut drawn: Seq<ShapeV> = Seq::empty();
        // Music card
        let ghost mid = *fb;
        fb.fill_rect(x + 1, y + 1, 22, 22, Color::from_rgb(24, 24, 37));
        proof {
            lemma_paint_step(fb0, mid, drawn, sfill(x + 1, y + 1, 22, 22, pack_argb(255, 24, 24, 37)));
            drawn = drawn.push(sfill(x + 1, y + 1, 22, 22, pack_argb(255, 24, 24, 37)));
        }
        let ghost mid = *fb;
        fb.draw_rect(x + 1, y + 1, 22, 22, Color::from_rgb(168, 85, 247));
        proof {
            lemma_paint_step(fb0, mid, drawn, soutline(x + 1, y + 1, 22, 22, pack_argb(255, 168, 85, 247)));
            drawn = drawn.push(soutline(x + 1, y + 1, 22, 22, pack_argb(255, 168, 85, 247)));
        }
        // Musical note (eighth note)
        let note_c = Color::from_rgb(244, 63, 94);
        // Note notehead
        let ghost mid = *fb;
        fb.fill_rect(x + 5, y + 14, 5, 4, note_c);
        proof {
            lemma_paint_step(fb0, mid, drawn, sfill(x + 5, y + 14, 5, 4, pack_argb(255, 244, 63, 94)));
            drawn = drawn.push(sfill(x + 5, y + 14, 5, 4, pack_argb(255, 244, 63, 94)));
        }
        // Stem
        let ghost mid = *fb;
        fb.fill_rect(x + 8, y + 5, 2, 10, note_c);
        proof {
            lemma_paint_step(fb0, mid, drawn, sfill(x + 8, y + 5, 2, 10, pack_argb(255, 244, 63, 94)));
            drawn = drawn.push(sfill(x + 8, y + 5, 2, 10, pack_argb(255, 244, 63, 94)));
        }
        // Flag
        let ghost mid = *fb;
        fb.fill_rect(x + 10, y + 5, 4, 3, note_c);
        proof {
            lemma_paint_step(fb0, mid, drawn, sfill(x + 10, y + 5, 4, 3, pack_argb(255, 244, 63, 94)));
            drawn = drawn.push(sfill(x + 10, y + 5, 4, 3, pack_argb(255, 244, 63, 94)));
        }
        let ghost mid = *fb;
        fb.fill_rect(x + 12, y + 7, 3, 3, note_c);
        proof {
            lemma_paint_step(fb0, mid, drawn, sfill(x + 12, y + 7, 3, 3, pack_argb(255, 244, 63, 94)));
            drawn = drawn.push(sfill(x + 12, y + 7, 3, 3, pack_argb(255, 244, 63, 94)));
        }
        // Audio equalizer bars on right
        let eq_c = Color::from_rgb(56, 189, 248);
        let ghost mid = *fb;
        fb.fill_rect(x + 14, y + 13, 2, 6, eq_c);
        proof {
            lemma_paint_step(fb0, mid, drawn, sfill(x + 14, y + 13, 2, 6, pack_argb(255, 56, 189, 248)));
            drawn = drawn.push(sfill(x + 14, y + 13, 2, 6, pack_argb(255, 56, 189, 248)));
        }
        let ghost mid = *fb;
        fb.fill_rect(x + 17, y + 9, 2, 10, Color::from_rgb(34, 197, 94));
        proof {
            lemma_paint_step(fb0, mid, drawn, sfill(x + 17, y + 9, 2, 10, pack_argb(255, 34, 197, 94)));
            drawn = drawn.push(sfill(x + 17, y + 9, 2, 10, pack_argb(255, 34, 197, 94)));
        }
        let ghost mid = *fb;
        fb.fill_rect(x + 20, y + 11, 2, 8, Color::from_rgb(245, 158, 11));
        proof {
            lemma_paint_step(fb0, mid, drawn, sfill(x + 20, y + 11, 2, 8, pack_argb(255, 245, 158, 11)));
            drawn = drawn.push(sfill(x + 20, y + 11, 2, 8, pack_argb(255, 245, 158, 11)));
        }
    assert(drawn =~= icon24_music_shapes(x as int, y as int));
}

/// The shapes of the 24-pixel image viewer icon at `(x, y)`, in drawing order.
pub open spec fn icon24_image_viewer_shapes(x: int, y: int) -> Seq<ShapeV> {
    seq![
        sfill(x + 1, y + 2, 22, 20, pack_argb(255, 30, 41, 59)),
        soutline(x + 1, y + 2, 22, 20, pack_argb(255, 148, 163, 184)),
        sfill(x + 3, y + 4, 18, 10, pack_argb(255, 30, 64, 175)),
        sfill(x + 14, y + 5, 4, 4, pack_argb(255, 251, 191, 36)),
        sfill(x + 3, y + 14, 8, 6, pack_argb(255, 16, 185, 129)),
        sfill(x + 5, y + 12, 4, 2, pack_argb(255, 16, 185, 129)),
        sfill(x + 6, y + 10, 2, 2, pack_argb(255, 16, 185, 129)),
        sfill(x + 10, y + 12, 9, 8, pack_argb(255, 79, 70, 229)),
        sfill(x + 12, y + 9, 5, 3, pack_argb(255, 79, 70, 229)),
        sfill(x + 14, y + 8, 2, 1, palette::WHITE),
    ]
}

fn icon24_image_viewer(fb: &mut Framebuffer, x: isize, y: isize)
    requires
        old(fb).wf(),
        x + 24 <= isize::MAX,
        y + 24 <= isize::MAX,
    ensures
        final(fb).wf(),
        final(fb).same_frame(old(fb)),
        unchanged_outside(old(fb).backbuffer@, final(fb).backbuffer@, old(fb).width as int, x as int, y as int, 24, 24),
        final(fb).backbuffer@ == painted(*old(fb), old(fb).backbuffer@, icon24_image_viewer_shapes(x as int, y as int)),
{
    let ghost fb0 = *fb;
    let ghost mut drawn: Seq<ShapeV> = Seq::empty();
        // Photo frame
        let ghost mid = *fb;
        fb.fill_rect(x + 1, y + 2, 22, 20, Color::from_rgb(30, 41, 59));
        proof {
            lemma_paint_step(fb0, mid, drawn, sfill(x + 1, y + 2, 22, 20, pack_argb(255, 30, 41, 59)));
            drawn = drawn.push(sfill(x + 1, y + 2, 22, 20, pack_argb(255, 30, 41, 59)));
        }
        let ghost mid = *fb;
        fb.draw_rect(x + 1, y + 2, 22, 20, Color::from_rgb(148, 163, 184));
        proof {
            lemma_paint_step(fb0, mid, drawn, soutline(x + 1, y + 2, 22, 20, pack_argb(255, 148, 163, 184)));
            drawn = drawn.push(soutline(x + 1, y + 2, 22, 20, pack_argb(255, 148, 163, 184)));
        }
        // Sky gradient
        let ghost mid = *fb;
        fb.fill_rect(x + 3, y + 4, 18, 10, Color::from_rgb(30, 64, 175));
        proof {
            lemma_paint_step(fb0, mid, drawn, sfill(x + 3, y + 4, 18, 10, pack_argb(255, 30, 64, 175)));
            drawn = drawn.push(sfill(x + 3, y + 4, 18, 10, pack_argb(255, 30, 64, 175)));
        }
        // Golden Sun
        let ghost mid = *fb;
        fb.fill_rect(x + 14, y + 5, 4, 4, Color::from_rgb(251, 191, 36));
        proof {
            lemma_paint_step(fb0, mid, drawn, sfill(x + 14, y + 5, 4, 4, pack_argb(255, 251, 191, 36)));
            drawn = drawn.push(sfill(x + 14, y + 5, 4, 4, pack_argb(255, 251, 191, 36)));
        }
        // Mountain peak left (emerald)
        let mtn1 = Color::from_rgb(16, 185, 129);
        let ghost mid = *fb;
        fb.fill_rect(x + 3, y + 14, 8, 6, mtn1);
        proof {
            lemma_paint_step(fb0, mid, drawn, sfill(x + 3, y + 14, 8, 6, pack_argb(255, 16, 185, 129)));
            drawn = drawn.push(sfill(x + 3, y + 14, 8, 6, pack_argb(255, 16, 185, 129)));
        }
        let ghost mid = *fb;
        fb.fill_rect(x + 5, y + 12, 4, 2, mtn1);
        proof {
            lemma_paint_step(fb0, mid, drawn, sfill(x + 5, y + 12, 4, 2, pack_argb(255, 16, 185, 129)));
            drawn = drawn.push(sfill(x + 5, y + 12, 4, 2, pack_argb(255, 16, 185, 129)));
        }
        let ghost mid = *fb;
        fb.fill_rect(x + 6, y + 10, 2, 2, mtn1);
        proof {
            lemma_paint_step(fb0, mid, drawn, sfill(x + 6, y + 10, 2, 2, pack_argb(255, 16, 185, 129)));
            drawn = drawn.push(sfill(x + 6, y + 10, 2, 2, pack_argb(255, 16, 185, 129)));
        }
        // Mountain peak right (slate blue)
        let mtn2 = Color::from_rgb(79, 70, 229);
        let ghost mid = *fb;
        fb.fill_rect(x + 10, y + 12, 9, 8, mtn2);
        proof {
            lemma_paint_step(fb0, mid, drawn, sfill(x + 10, y + 12, 9, 8, pack_argb(255, 79, 70, 229)));
            drawn = drawn.push(sfill(x + 10, y + 12, 9, 8, pack_argb(255, 79, 70, 229)));
        }
        let ghost mid = *fb;
        fb.fill_rect(x + 12, y + 9, 5, 3, mtn2);
        proof {
            lemma_paint_step(fb0, mid, drawn, sfill(x + 12, y + 9, 5, 3, pack_argb(255, 79, 70, 229)));
            drawn = drawn.push(sfill(x + 12, y + 9, 5, 3, pack_argb(255, 79, 70, 229)));
        }
        let ghost mid = *fb;
        fb.fill_rect(x + 14, y + 8, 2, 1, Color::from_raw(palette::WHITE)); // Snow cap
        proof {
            lemma_paint_step(fb0, mid, drawn, sfill(x + 14, y + 8, 2, 1, palette::WHITE));
            drawn = drawn.push(sfill(x + 14, y + 8, 2, 1, palette::WHITE));
        }
    assert(drawn =~= icon24_image_viewer_shapes(x as int, y as int));
}

/// The shapes of the 24-pixel settings icon at `(x, y)`, in drawing order.
pub open spec fn icon24_settings_shapes(x: int, y: int) -> Seq<ShapeV> {
    seq![
        sfill(x + 1, y + 1, 22, 22, pack_argb(255, 30, 41, 59)),
        soutline(x + 1, y + 1, 22, 22, pack_argb(255, 71, 85, 105)),
        sfill(x + 10, y + 3, 4, 3, pack_argb(255, 148, 163, 184)),
        sfill(x + 10, y + 18, 4, 3, pack_argb(255, 148, 163, 184)),
        sfill(x + 3, y + 10, 3, 4, pack_argb(255, 148, 163, 184)),
        sfill(x + 18, y + 10, 3, 4, pack_argb(255, 148, 163, 184)),
        sfill(x + 5, y + 5, 3, 3, pack_argb(255, 148, 163, 184)),
        sfill(x + 16, y + 5, 3, 3, pack_argb(255, 148, 163, 184)),
        sfill(x + 5, y + 16, 3, 3, pack_argb(255, 148, 163, 184)),
        sfill(x + 16, y + 16, 3, 3, pack_argb(255, 148, 163, 184)),
        sfill(x + 6, y + 6, 12, 12, pack_argb(255, 148, 163, 184)),
        sfill(x + 9, y + 9, 6, 6, pack_argb(255, 30, 41, 59)),
        sfill(x + 11, y + 11, 2, 2, pack_argb(255, 56, 189, 248)),
    ]
}

fn icon24_settings(fb: &mut Framebuffer, x: isize, y: isize)
    requires
        old(fb).wf(),
        x + 24 <= isize::MAX,
        y + 24 <= isize::MAX,
    ensures
        final(fb).wf(),
        final(fb).same_frame(old(fb)),
        unchanged_outside(old(fb).backbuffer@, final(fb).backbuffer@, old(fb).width as int, x as int, y as int, 24, 24),
        final(fb).backbuffer@ == painted(*old(fb), old(fb).backbuffer@, icon24_settings_shapes(x as int, y as int)),
{
    let ghost fb0 = *fb;
    let ghost mut drawn: Seq<ShapeV> = Seq::empty();
        // Mechanical Gear / Cogwheel
        let gear_dark = Color::from_rgb(30, 41, 59);
        let gear_metal = Color::from_rgb(148, 163, 184);
        let gear_accent = Color::from_rgb(56, 189, 248);

        let ghost mid = *fb;
        fb.fill_rect(x + 1, y + 1, 22, 22, gear_dark);
        proof {
            lemma_paint_step(fb0, mid, drawn, sfill(x + 1, y + 1, 22, 22, pack_argb(255, 30, 41, 59)));
            drawn = drawn.push(sfill(x + 1, y + 1, 22, 22, pack_argb(255, 30, 41, 59)));
        }
        let ghost mid = *fb;
        fb.draw_rect(x + 1, y + 1, 22, 22, Color::from_rgb(71, 85, 105));
        proof {
            lemma_paint_step(fb0, mid, drawn, soutline(x + 1, y + 1, 22, 22, pack_argb(255, 71, 85, 105)));
            drawn = drawn.push(soutline(x + 1, y + 1, 22, 22, pack_argb(255, 71, 85, 105)));
        }

        // Gear Teeth (North, South, East, West)
        let ghost mid = *fb;
        fb.fill_rect(x + 10, y + 3, 4, 3, gear_metal); // N
        proof {
            lemma_paint_step(fb0, mid, drawn, sfill(x + 10, y + 3, 4, 3, pack_argb(255, 148, 163, 184)));
            drawn = drawn.push(sfill(x + 10, y + 3, 4, 3, pack_argb(255, 148, 163, 184)));
        }
        let ghost mid = *fb;
        fb.fill_rect(x + 10, y + 18, 4, 3, gear_metal); // S
        proof {
            lemma_paint_step(fb0, mid, drawn, sfill(x + 10, y + 18, 4, 3, pack_argb(255, 148, 163, 184)));
            drawn = drawn.push(sfill(x + 10, y + 18, 4, 3, pack_argb(255, 148, 163, 184)));
        }
        let ghost mid = *fb;
        fb.fill_rect(x + 3, y + 10, 3, 4, gear_metal); // W
        proof {
            lemma_paint_step(fb0, mid, drawn, sfill(x + 3, y + 10, 3, 4, pack_argb(255, 148, 163, 184)));
            drawn = drawn.push(sfill(x + 3, y + 10, 3, 4, pack_argb(255, 148, 163, 184)));
        }
        let ghost mid = *fb;
        fb.fill_rect(x + 18, y + 10, 3, 4, gear_metal); // E
        proof {
            lemma_paint_step(fb0, mid, drawn, sfill(x + 18, y + 10, 3, 4, pack_argb(255, 148, 163, 184)));
            drawn = drawn.push(sfill(x + 18, y + 10, 3, 4, pack_argb(255, 148, 163, 184)));
        }
        // Diagonal teeth
        let ghost mid = *fb;
        fb.fill_rect(x + 5, y + 5, 3, 3, gear_metal); // NW
        proof {
            lemma_paint_step(fb0, mid, drawn, sfill(x + 5, y + 5, 3, 3, pack_argb(255, 148, 163, 184)));
            drawn = drawn.push(sfill(x + 5, y + 5, 3, 3, pack_argb(255, 148, 163, 184)));
        }
        let ghost mid = *fb;
        fb.fill_rect(x + 16, y + 5, 3, 3, gear_metal); // NE
        proof {
            lemma_paint_step(fb0, mid, drawn, sfill(x + 16, y + 5, 3, 3, pack_argb(255, 148, 163, 184)));
            drawn = drawn.push(sfill(x + 16, y + 5, 3, 3, pack_argb(255, 148, 163, 184)));
        }
        let ghost mid = *fb;
        fb.fill_rect(x + 5, y + 16, 3, 3, gear_metal); // SW
        proof {
            lemma_paint_step(fb0, mid, drawn, sfill(x + 5, y + 16, 3, 3, pack_argb(255, 148, 163, 184)));
            drawn = drawn.push(sfill(x + 5, y + 16, 3, 3, pack_argb(255, 148, 163, 184)));
        }
        let ghost mid = *fb;
        fb.fill_rect(x + 16, y + 16, 3, 3, gear_metal); // SE
        proof {
            lemma_paint_step(fb0, mid, drawn, sfill(x + 16, y + 16, 3, 3, pack_argb(255, 148, 163, 184)));
            drawn = drawn.push(sfill(x + 16, y + 16, 3, 3, pack_argb(255, 148, 163, 184)));
        }

        // Main gear circle
        let ghost mid = *fb;
        fb.fill_rect(x + 6, y + 6, 12, 12, gear_metal);
        proof {
            lemma_paint_step(fb0, mid, drawn, sfill(x + 6, y + 6, 12, 12, pack_argb(255, 148, 163, 184)));
            drawn = drawn.push(sfill(x + 6, y + 6, 12, 12, pack_argb(255, 148, 163, 184)));
        }
        // Gear hub / center hole
        let ghost mid = *fb;
        fb.fill_rect(x + 9, y + 9, 6, 6, gear_dark);
        proof {
            lemma_paint_step(fb0, mid, drawn, sfill(x + 9, y + 9, 6, 6, pack_argb(255, 30, 41, 59)));
            drawn = drawn.push(sfill(x + 9, y + 9, 6, 6, pack_argb(255, 30, 41, 59)));
        }
        let ghost mid = *fb;
        fb.fill_rect(x + 11, y + 11, 2, 2, gear_accent);
        proof {
            lemma_paint_step(fb0, mid, drawn, sfill(x + 11, y + 11, 2, 2, pack_argb(255, 56, 189, 248)));
            drawn = drawn.push(sfill(x + 11, y + 11, 2, 2, pack_argb(255, 56, 189, 248)));
        }
    assert(drawn =~= icon24_settings_shapes(x as int, y as int));
}

/// The shapes of the 24-pixel elf runner icon at `(x, y)`, in drawing order.
pub open spec fn icon24_elf_runner_shapes(x: int, y: int) -> Seq<ShapeV> {
    seq![
        sfill(x + 1, y + 1, 22, 22, pack_argb(255, 15, 23, 42)),
        soutline(x + 1, y + 1, 22, 22, pack_argb(255, 244, 63, 94)),
        sfill(x + 14, y + 4, 3, 3, pack_argb(255, 251, 113, 133)),
        sfill(x + 16, y + 3, 1, 1, pack_argb(255, 251, 113, 133)),
        sfill(x + 10, y + 7, 5, 5, pack_argb(255, 244, 63, 94)),
        sfill(x + 7, y + 10, 5, 5, pack_argb(255, 244, 63, 94)),
        sfill(x + 11, y + 8, 2, 2, pack_argb(255, 56, 189, 248)),
        sfill(x + 5, y + 7, 2, 4, pack_argb(255, 148, 163, 184)),
        sfill(x + 13, y + 15, 4, 2, pack_argb(255, 148, 163, 184)),
        sfill(x + 4, y + 14, 3, 3, pack_argb(255, 245, 158, 11)),
        sfill(x + 2, y + 16, 3, 3, pack_argb(255, 239, 68, 68)),
    ]
}

fn icon24_elf_runner(fb: &mut Framebuffer, x: isize, y: isize)
    requires
        old(fb).wf(),
        x + 24 <= isize::MAX,
        y + 24 <= isize::MAX,
    ensures
        final(fb).wf(),
        final(fb).same_frame(old(fb)),
        unchanged_outside(old(fb).backbuffer@, final(fb).backbuffer@, old(fb).width as int, x as int, y as int, 24, 24),
        final(fb).backbuffer@ == painted(*old(fb), old(fb).backbuffer@, icon24_elf_runner_shapes(x as int, y as int)),
{
    let ghost fb0 = *fb;
    let ghost mut drawn: Seq<ShapeV> = Seq::empty();
        // Executable / Rocket Icon
        let ghost mid = *fb;
        fb.fill_rect(x + 1, y + 1, 22, 22, Color::from_rgb(15, 23, 42));
        proof {
            lemma_paint_step(fb0, mid, drawn, sfill(x + 1, y + 1, 22, 22, pack_argb(255, 15, 23, 42)));
            drawn = drawn.push(sfill(x + 1, y + 1, 22, 22, pack_argb(255, 15, 23, 42)));
        }
        let ghost mid = *fb;
        fb.draw_rect(x + 1, y + 1, 22, 22, Color::from_rgb(244, 63, 94));
        proof {
            lemma_paint_step(fb0, mid, drawn, soutline(x + 1, y + 1, 22, 22, pack_argb(255, 244, 63, 94)));
            drawn = drawn.push(soutline(x + 1, y + 1, 22, 22, pack_argb(255, 244, 63, 94)));
        }

        let rocket_c = Color::from_rgb(244, 63, 94);
        let nose_c = Color::from_rgb(251, 113, 133);
        let fin_c = Color::from_rgb(148, 163, 184);
        let flame_c = Color::from_rgb(245, 158, 11);

        // Nose cone
        let ghost mid = *fb;
        fb.fill_rect(x + 14, y + 4, 3, 3, nose_c);
        proof {
            lemma_paint_step(fb0, mid, drawn, sfill(x + 14, y + 4, 3, 3, pack_argb(255, 251, 113, 133)));
            drawn = drawn.push(sfill(x + 14, y + 4, 3, 3, pack_argb(255, 251, 113, 133)));
        }
        let ghost mid = *fb;
        fb.draw_pixel(x + 16, y + 3, nose_c);
        proof {
            lemma_paint_step(fb0, mid, drawn, sfill(x + 16, y + 3, 1, 1, pack_argb(255, 251, 113, 133)));
            drawn = drawn.push(sfill(x + 16, y + 3, 1, 1, pack_argb(255, 251, 113, 133)));
        }
        // Body
        let ghost mid = *fb;
        fb.fill_rect(x + 10, y + 7, 5, 5, rocket_c);
        proof {
            lemma_paint_step(fb0, mid, drawn, sfill(x + 10, y + 7, 5, 5, pack_argb(255, 244, 63, 94)));
            drawn = drawn.push(sfill(x + 10, y + 7, 5, 5, pack_argb(255, 244, 63, 94)));
        }
        let ghost mid = *fb;
        fb.fill_rect(x + 7, y + 10, 5, 5, rocket_c);
        proof {
            lemma_paint_step(fb0, mid, drawn, sfill(x + 7, y + 10, 5, 5, pack_argb(255, 244, 63, 94)));
            drawn = drawn.push(sfill(x + 7, y + 10, 5, 5, pack_argb(255, 244, 63, 94)));
        }
        // Window porthole
        let ghost mid = *fb;
        fb.fill_rect(x + 11, y + 8, 2, 2, Color::from_rgb(56, 189, 248));
        proof {
            lemma_paint_step(fb0, mid, drawn, sfill(x + 11, y + 8, 2, 2, pack_argb(255, 56, 189, 248)));
            drawn = drawn.push(sfill(x + 11, y + 8, 2, 2, pack_argb(255, 56, 189, 248)));
        }
        // Fins
        let ghost mid = *fb;
        fb.fill_rect(x + 5, y + 7, 2, 4, fin_c);
        proof {
            lemma_paint_step(fb0, mid, drawn, sfill(x + 5, y + 7, 2, 4, pack_argb(255, 148, 163, 184)));
            drawn = drawn.push(sfill(x + 5, y + 7, 2, 4, pack_argb(255, 148, 163, 184)));
        }
        let ghost mid = *fb;
        fb.fill_rect(x + 13, y + 15, 4, 2, fin_c);
        proof {
            lemma_paint_step(fb0, mid, drawn, sfill(x + 13, y + 15, 4, 2, pack_argb(255, 148, 163, 184)));
            drawn = drawn.push(sfill(x + 13, y + 15, 4, 2, pack_argb(255, 148, 163, 184)));
        }
        // Booster Flame
        let ghost mid = *fb;
        fb.fill_rect(x + 4, y + 14, 3, 3, flame_c);
        proof {
            lemma_paint_step(fb0, mid, drawn, sfill(x + 4, y + 14, 3, 3, pack_argb(255, 245, 158, 11)));
            drawn = drawn.push(sfill(x + 4, y + 14, 3, 3, pack_argb(255, 245, 158, 11)));
        }
        let ghost mid = *fb;
        fb.fill_rect(x + 2, y + 16, 3, 3, Color::from_rgb(239, 68, 68));
        proof {
            lemma_paint_step(fb0, mid, drawn, sfill(x + 2, y + 16, 3, 3, pack_argb(255, 239, 68, 68)));
            drawn = drawn.push(sfill(x + 2, y + 16, 3, 3, pack_argb(255, 239, 68, 68)));
        }
    assert(drawn =~= icon24_elf_runner_shapes(x as int, y as int));
}

/// The shapes of the 24-pixel doom icon at `(x, y)`, in drawing order.
pub open spec fn icon24_doom_shapes(x: int, y: int) -> Seq<ShapeV> {
    seq![
        sfill(x + 1, y + 1, 22, 22, pack_argb(255, 30, 10, 10)),
        soutline(x + 1, y + 1, 22, 22, pack_argb(255, 185, 28, 28)),
        sfill(x + 4, y + 4, 3, 3, pack_argb(255, 234, 179, 8)),
        sfill(x + 5, y + 7, 2, 3, pack_argb(255, 234, 179, 8)),
        sfill(x + 17, y + 4, 3, 3, pack_argb(255, 234, 179, 8)),
        sfill(x + 17, y + 7, 2, 3, pack_argb(255, 234, 179, 8)),
        sfill(x + 7, y + 7, 10, 11, pack_argb(255, 220, 38, 38)),
        sfill(x + 6, y + 9, 12, 7, pack_argb(255, 220, 38, 38)),
        sfill(x + 8, y + 11, 2, 2, pack_argb(255, 250, 204, 21)),
        sfill(x + 14, y + 11, 2, 2, pack_argb(255, 250, 204, 21)),
        sfill(x + 9, y + 15, 2, 2, palette::WHITE),
        sfill(x + 13, y + 15, 2, 2, palette::WHITE),
        sfill(x + 3, y + 20, 18, 2, pack_argb(255, 249, 115, 22)),
    ]
}

fn icon24_doom(fb: &mut Framebuffer, x: isize, y: isize)
    requires
        old(fb).wf(),
        x + 24 <= isize::MAX,
        y + 24 <= isize::MAX,
    ensures
        final(fb).wf(),
        final(fb).same_frame(old(fb)),
        unchanged_outside(old(fb).backbuffer@, final(fb).backbuffer@, old(fb).width as int, x as int, y as int, 24, 24),
        final(fb).backbuffer@ == painted(*old(fb), old(fb).backbuffer@, icon24_doom_shapes(x as int, y as int)),
{
    let ghost fb0 = *fb;
    let ghost mut drawn: Seq<ShapeV> = Seq::empty();
        // Demonic plate background
        let ghost mid = *fb;
        fb.fill_rect(x + 1, y + 1, 22, 22, Color::from_rgb(30, 10, 10));
        proof {
            lemma_paint_step(fb0, mid, drawn, sfill(x + 1, y + 1, 22, 22, pack_argb(255, 30, 10, 10)));
            drawn = drawn.push(sfill(x + 1, y + 1, 22, 22, pack_argb(255, 30, 10, 10)));
        }
        let ghost mid = *fb;
        fb.draw_rect(x + 1, y + 1, 22, 22, Color::from_rgb(185, 28, 28));
        proof {
            lemma_paint_step(fb0, mid, drawn, soutline(x + 1, y + 1, 22, 22, pack_argb(255, 185, 28, 28)));
            drawn = drawn.push(soutline(x + 1, y + 1, 22, 22, pack_argb(255, 185, 28, 28)));
        }

        // Horns (gold/bone)
        let horn_c = Color::from_rgb(234, 179, 8);
        let ghost mid = *fb;
        fb.fill_rect(x + 4, y + 4, 3, 3, horn_c);
        proof {
            lemma_paint_step(fb0, mid, drawn, sfill(x + 4, y + 4, 3, 3, pack_argb(255, 234, 179, 8)));
            drawn = drawn.push(sfill(x + 4, y + 4, 3, 3, pack_argb(255, 234, 179, 8)));
        }
        let ghost mid = *fb;
        fb.fill_rect(x + 5, y + 7, 2, 3, horn_c);
        proof {
            lemma_paint_step(fb0, mid, drawn, sfill(x + 5, y + 7, 2, 3, pack_argb(255, 234, 179, 8)));
            drawn = drawn.push(sfill(x + 5, y + 7, 2, 3, pack_argb(255, 234, 179, 8)));
        }
        let ghost mid = *fb;
        fb.fill_rect(x + 17, y + 4, 3, 3, horn_c);
        proof {
            lemma_paint_step(fb0, mid, drawn, sfill(x + 17, y + 4, 3, 3, pack_argb(255, 234, 179, 8)));
            drawn = drawn.push(sfill(x + 17, y + 4, 3, 3, pack_argb(255, 234, 179, 8)));
        }
        let ghost mid = *fb;
        fb.fill_rect(x + 17, y + 7, 2, 3, horn_c);
        proof {
            lemma_paint_step(fb0, mid, drawn, sfill(x + 17, y + 7, 2, 3, pack_argb(255, 234, 179, 8)));
            drawn = drawn.push(sfill(x + 17, y + 7, 2, 3, pack_argb(255, 234, 179, 8)));
        }

        // Demon head (crimson)
        let head_c = Color::from_rgb(220, 38, 38);
        let ghost mid = *fb;
        fb.fill_rect(x + 7, y + 7, 10, 11, head_c);
        proof {
            lemma_paint_step(fb0, mid, drawn, sfill(x + 7, y + 7, 10, 11, pack_argb(255, 220, 38, 38)));
            drawn = drawn.push(sfill(x + 7, y + 7, 10, 11, pack_argb(255, 220, 38, 38)));
        }
        let ghost mid = *fb;
        fb.fill_rect(x + 6, y + 9, 12, 7, head_c);
        proof {
            lemma_paint_step(fb0, mid, drawn, sfill(x + 6, y + 9, 12, 7, pack_argb(255, 220, 38, 38)));
            drawn = drawn.push(sfill(x + 6, y + 9, 12, 7, pack_argb(255, 220, 38, 38)));
        }

        // Glowing yellow eyes
        let eye_c = Color::from_rgb(250, 204, 21);
        let ghost mid = *fb;
        fb.fill_rect(x + 8, y + 11, 2, 2, eye_c);
        proof {
            lemma_paint_step(fb0, mid, drawn, sfill(x + 8, y + 11, 2, 2, pack_argb(255, 250, 204, 21)));
            drawn = drawn.push(sfill(x + 8, y + 11, 2, 2, pack_argb(255, 250, 204, 21)));
        }
        let ghost mid = *fb;
        fb.fill_rect(x + 14, y + 11, 2, 2, eye_c);
        proof {
            lemma_paint_step(fb0, mid, drawn, sfill(x + 14, y + 11, 2, 2, pack_argb(255, 250, 204, 21)));
            drawn = drawn.push(sfill(x + 14, y + 11, 2, 2, pack_argb(255, 250, 204, 21)));
        }

        // Fangs / Teeth
        let ghost mid = *fb;
        fb.fill_rect(x + 9, y + 15, 2, 2, Color::from_raw(palette::WHITE));
        proof {
            lemma_paint_step(fb0, mid, drawn, sfill(x + 9, y + 15, 2, 2, palette::WHITE));
            drawn = drawn.push(sfill(x + 9, y + 15, 2, 2, palette::WHITE));
        }
        let ghost mid = *fb;
        fb.fill_rect(x + 13, y + 15, 2, 2, Color::from_raw(palette::WHITE));
        proof {
            lemma_paint_step(fb0, mid, drawn, sfill(x + 13, y + 15, 2, 2, palette::WHITE));
            drawn = drawn.push(sfill(x + 13, y + 15, 2, 2, palette::WHITE));
        }

        // Lava base
        let ghost mid = *fb;
        fb.fill_rect(x + 3, y + 20, 18, 2, Color::from_rgb(249, 115, 22));
        proof {
            lemma_paint_step(fb0, mid, drawn, sfill(x + 3, y + 20, 18, 2, pack_argb(255, 249, 115, 22)));
            drawn = drawn.push(sfill(x + 3, y + 20, 18, 2, pack_argb(255, 249, 115, 22)));
        }
    assert(drawn =~= icon24_doom_shapes(x as int, y as int));
}

/// The shapes of the 24-pixel power icon at `(x, y)`, in drawing order.
pub open spec fn icon24_power_shapes(x: int, y: int) -> Seq<ShapeV> {
    seq![
        sfill(x + 1, y + 1, 22, 22, pack_argb(255, 69, 10, 10)),
        soutline(x + 1, y + 1, 22, 22, pack_argb(255, 239, 68, 68)),
        soutline(x + 5, y + 7, 14, 12, pack_argb(255, 248, 113, 113)),
        sfill(x + 9, y + 6, 6, 3, pack_argb(255, 69, 10, 10)),
        sfill(x + 11, y + 4, 2, 8, palette::WHITE),
    ]
}

fn icon24_power(fb: &mut Framebuffer, x: isize, y: isize)
    requires
        old(fb).wf(),
        x + 24 <= isize::MAX,
        y + 24 <= isize::MAX,
    ensures
        final(fb).wf(),
        final(fb).same_frame(old(fb)),
        unchanged_outside(old(fb).backbuffer@, final(fb).backbuffer@, old(fb).width as int, x as int, y as int, 24, 24),
        final(fb).backbuffer@ == painted(*old(fb), old(fb).backbuffer@, icon24_power_shapes(x as int, y as int)),
{
    let ghost fb0 = *fb;
    let ghost mut drawn: Seq<ShapeV> = Seq::empty();
        // Power off / reboot circle and line
        let ghost mid = *fb;
        fb.fill_rect(x + 1, y + 1, 22, 22, Color::from_rgb(69, 10, 10));
        proof {
            lemma_paint_step(fb0, mid, drawn, sfill(x + 1, y + 1, 22, 22, pack_argb(255, 69, 10, 10)));
            drawn = drawn.push(sfill(x + 1, y + 1, 22, 22, pack_argb(255, 69, 10, 10)));
        }
        let ghost mid = *fb;
        fb.draw_rect(x + 1, y + 1, 22, 22, Color::from_rgb(239, 68, 68));
        proof {
            lemma_paint_step(fb0, mid, drawn, soutline(x + 1, y + 1, 22, 22, pack_argb(255, 239, 68, 68)));
            drawn = drawn.push(soutline(x + 1, y + 1, 22, 22, pack_argb(255, 239, 68, 68)));
        }
        // Power arc
        let red = Color::from_rgb(248, 113, 113);
        let ghost mid = *fb;
        fb.draw_rect(x + 5, y + 7, 14, 12, red);
        proof {
            lemma_paint_step(fb0, mid, drawn, soutline(x + 5, y + 7, 14, 12, pack_argb(255, 248, 113, 113)));
            drawn = drawn.push(soutline(x + 5, y + 7, 14, 12, pack_argb(255, 248, 113, 113)));
        }
        let ghost mid = *fb;
        fb.fill_rect(x + 9, y + 6, 6, 3, Color::from_rgb(69, 10, 10)); // Top opening
        proof {
            lemma_paint_step(fb0, mid, drawn, sfill(x + 9, y + 6, 6, 3, pack_argb(255, 69, 10, 10)));
            drawn = drawn.push(sfill(x + 9, y + 6, 6, 3, pack_argb(255, 69, 10, 10)));
        }
        // Center vertical power bar
        let ghost mid = *fb;
        fb.fill_rect(x + 11, y + 4, 2, 8, Color::from_raw(palette::WHITE));
        proof {
            lemma_paint_step(fb0, mid, drawn, sfill(x + 11, y + 4, 2, 8, palette::WHITE));
            drawn = drawn.push(sfill(x + 11, y + 4, 2, 8, palette::WHITE));
        }
    assert(drawn =~= icon24_power_shapes(x as int, y as int));
}

/// The shapes of the 24-pixel icon `icon` at `(x, y)`, in drawing order.
pub open spec fn icon24_shapes(icon: AppIcon, x: int, y: int) -> Seq<ShapeV> {
    match icon {
        AppIcon::Terminal => icon24_terminal_shapes(x, y),
        AppIcon::SysInfo => icon24_sysinfo_shapes(x, y),
        AppIcon::Calculator => icon24_calculator_shapes(x, y),
        AppIcon::Notepad => icon24_notepad_shapes(x, y),
        AppIcon::Snake => icon24_snake_shapes(x, y),
        AppIcon::Music => icon24_music_shapes(x, y),
        AppIcon::ImageViewer => icon24_image_viewer_shapes(x, y),
        AppIcon::Settings => icon24_settings_shapes(x, y),
        AppIcon::ElfRunner => icon24_elf_runner_shapes(x, y),
        AppIcon::Doom => icon24_doom_shapes(x, y),
        AppIcon::Power => icon24_power_shapes(x, y),
    }
}

/// Draws the 24x24 pixel-art icon with its top-left corner at `x`, `y`:
/// exactly the pixels of `icon24_shapes`; pixels outside that box are left
/// as they are.
pub fn draw_icon_24(fb: &mut Framebuffer, x: isize, y: isize, icon: AppIcon)
    requires
        old(fb).wf(),
        x + 24 <= isize::MAX,
        y + 24 <= isize::MAX,
    ensures
        final(fb).wf(),
        final(fb).same_frame(old(fb)),
        unchanged_outside(old(fb).backbuffer@, final(fb).backbuffer@, old(fb).width as int, x as int, y as int, 24, 24),
        final(fb).backbuffer@ == painted(*old(fb), old(fb).backbuffer@, icon24_shapes(icon, x as int, y as int)),
{
    match icon {
        AppIcon::Terminal => icon24_terminal(fb, x, y),
        AppIcon::SysInfo => icon24_sysinfo(fb, x, y),
        AppIcon::Calculator => icon24_calculator(fb, x, y),
        AppIcon::Notepad => icon24_notepad(fb, x, y),
        AppIcon::Snake => icon24_snake(fb, x, y),
        AppIcon::Music => icon24_music(fb, x, y),
        AppIcon::ImageViewer => icon24_image_viewer(fb, x, y),
        AppIcon::Settings => icon24_settings(fb, x, y),
        AppIcon::ElfRunner => icon24_elf_runner(fb, x, y),
        AppIcon::Doom => icon24_doom(fb, x, y),
        AppIcon::Power => icon24_power(fb, x, y),
    }
}

/// The shapes of the 16-pixel terminal icon at `(x, y)`, in drawing order.
pub open spec fn icon16_terminal_shapes(x: int, y: int) -> Seq<ShapeV> {
    seq![
        sfill(x, y, 16, 16, pack_argb(255, 15, 23, 42)),
        soutline(x, y, 16, 16, pack_argb(255, 71, 85, 105)),
        sfill(x + 3, y + 5, 1, 1, pack_argb(255, 34, 197, 94)),
        sfill(x + 4, y + 6, 1, 1, pack_argb(255, 34, 197, 94)),
        sfill(x + 5, y + 7, 1, 1, pack_argb(255, 34, 197, 94)),
        sfill(x + 4, y + 8, 1, 1, pack_argb(255, 34, 197, 94)),
        sfill(x + 3, y + 9, 1, 1, pack_argb(255, 34, 197, 94)),
        sfill(x + 7, y + 9, 4, 2, pack_argb(255, 56, 189, 248)),
    ]
}

fn icon16_terminal(fb: &mut Framebuffer, x: isize, y: isize)
    requires
        old(fb).wf(),
        x + 16 <= isize::MAX,
        y + 16 <= isize::MAX,
    ensures
        final(fb).wf(),
        final(fb).same_frame(old(fb)),
        unchanged_outside(old(fb).backbuffer@, final(fb).backbuffer@, old(fb).width as int, x as int, y as int, 16, 16),
        final(fb).backbuffer@ == painted(*old(fb), old(fb).backbuffer@, icon16_terminal_shapes(x as int, y as int)),
{
    let ghost fb0 = *fb;
    let ghost mut drawn: Seq<ShapeV> = Seq::empty();
        let ghost mid = *fb;
        fb.fill_rect(x, y, 16, 16, Color::from_rgb(15, 23, 42));
        proof {
            lemma_paint_step(fb0, mid, drawn, sfill(x as int, y as int, 16, 16, pack_argb(255, 15, 23, 42)));
            drawn = drawn.push(sfill(x as int, y as int, 16, 16, pack_argb(255, 15, 23, 42)));
        }
        let ghost mid = *fb;
        fb.draw_rect(x, y, 16, 16, Color::from_rgb(71, 85, 105));
        proof {
            lemma_paint_step(fb0, mid, drawn, soutline(x as int, y as int, 16, 16, pack_argb(255, 71, 85, 105)));
            drawn = drawn.push(soutline(x as int, y as int, 16, 16, pack_argb(255, 71, 85, 105)));
        }
        // Green prompt '>'
        let c = Color::from_rgb(34, 197, 94);
        let ghost mid = *fb;
        fb.draw_pixel(x + 3, y + 5, c);
        proof {
            lemma_paint_step(fb0, mid, drawn, sfill(x + 3, y + 5, 1, 1, pack_argb(255, 34, 197, 94)));
            drawn = drawn.push(sfill(x + 3, y + 5, 1, 1, pack_argb(255, 34, 197, 94)));
        }
        let ghost mid = *fb;
        fb.draw_pixel(x + 4, y + 6, c);
        proof {
            lemma_paint_step(fb0, mid, drawn, sfill(x + 4, y + 6, 1, 1, pack_argb(255, 34, 197, 94)));
            drawn = drawn.push(sfill(x + 4, y + 6, 1, 1, pack_argb(255, 34, 197, 94)));
        }
        let ghost mid = *fb;
        fb.draw_pixel(x + 5, y + 7, c);
        proof {
            lemma_paint_step(fb0, mid, drawn, sfill(x + 5, y + 7, 1, 1, pack_argb(255, 34, 197, 94)));
            drawn = drawn.push(sfill(x + 5, y + 7, 1, 1, pack_argb(255, 34, 197, 94)));
        }
        let ghost mid = *fb;
        fb.draw_pixel(x + 4, y + 8, c);
        proof {
            lemma_paint_step(fb0, mid, drawn, sfill(x + 4, y + 8, 1, 1, pack_argb(255, 34, 197, 94)));
            drawn = drawn.push(sfill(x + 4, y + 8, 1, 1, pack_argb(255, 34, 197, 94)));
        }
        let ghost mid = *fb;
        fb.draw_pixel(x + 3, y + 9, c);
        proof {
            lemma_paint_step(fb0, mid, drawn, sfill(x + 3, y + 9, 1, 1, pack_argb(255, 34, 197, 94)));
            drawn = drawn.push(sfill(x + 3, y + 9, 1, 1, pack_argb(255, 34, 197, 94)));
        }
        // Cursor '_'
        let ghost mid = *fb;
        fb.fill_rect(x + 7, y + 9, 4, 2, Color::from_rgb(56, 189, 248));
        proof {
            lemma_paint_step(fb0, mid, drawn, sfill(x + 7, y + 9, 4, 2, pack_argb(255, 56, 189, 248)));
            drawn = drawn.push(sfill(x + 7, y + 9, 4, 2, pack_argb(255, 56, 189, 248)));
        }
    assert(drawn =~= icon16_terminal_shapes(x as int, y as int));
}

/// The shapes of the 16-pixel sysinfo icon at `(x, y)`, in drawing order.
pub open spec fn icon16_sysinfo_shapes(x: int, y: int) -> Seq<ShapeV> {
    seq![
        sfill(x + 2, y + 2, 12, 12, pack_argb(255, 30, 41, 59)),
        soutline(x + 2, y + 2, 12, 12, pack_argb(255, 245, 158, 11)),
        sfill(x + 5, y + 5, 6, 6, pack_argb(255, 37, 99, 235)),
        sfill(x + 4, y, 2, 2, pack_argb(255, 245, 158, 11)),
        sfill(x + 10, y, 2, 2, pack_argb(255, 245, 158, 11)),
        sfill(x + 4, y + 14, 2, 2, pack_argb(255, 245, 158, 11)),
        sfill(x + 10, y + 14, 2, 2, pack_argb(255, 245, 158, 11)),
    ]
}

fn icon16_sysinfo(fb: &mut Framebuffer, x: isize, y: isize)
    requires
        old(fb).wf(),
        x + 16 <= isize::MAX,
        y + 16 <= isize::MAX,
    ensures
        final(fb).wf(),
        final(fb).same_frame(old(fb)),
        unchanged_outside(old(fb).backbuffer@, final(fb).backbuffer@, old(fb).width as int, x as int, y as int, 16, 16),
        final(fb).backbuffer@ == painted(*old(fb), old(fb).backbuffer@, icon16_sysinfo_shapes(x as int, y as int)),
{
    let ghost fb0 = *fb;
    let ghost mut drawn: Seq<ShapeV> = Seq::empty();
        let ghost mid = *fb;
        fb.fill_rect(x + 2, y + 2, 12, 12, Color::from_rgb(30, 41, 59));
        proof {
            lemma_paint_step(fb0, mid, drawn, sfill(x + 2, y + 2, 12, 12, pack_argb(255, 30, 41, 59)));
            drawn = drawn.push(sfill(x + 2, y + 2, 12, 12, pack_argb(255, 30, 41, 59)));
        }
        let ghost mid = *fb;
        fb.draw_rect(x + 2, y + 2, 12, 12, Color::from_rgb(245, 158, 11));
        proof {
            lemma_paint_step(fb0, mid, drawn, soutline(x + 2, y + 2, 12, 12, pack_argb(255, 245, 158, 11)));
            drawn = drawn.push(soutline(x + 2, y + 2, 12, 12, pack_argb(255, 245, 158, 11)));
        }
        // Core
        let ghost mid = *fb;
        fb.fill_rect(x + 5, y + 5, 6, 6, Color::from_rgb(37, 99, 235));
        proof {
            lemma_paint_step(fb0, mid, drawn, sfill(x + 5, y + 5, 6, 6, pack_argb(255, 37, 99, 235)));
            drawn = drawn.push(sfill(x + 5, y + 5, 6, 6, pack_argb(255, 37, 99, 235)));
        }
        // Pins
        let ghost mid = *fb;
        fb.fill_rect(x + 4, y, 2, 2, Color::from_rgb(245, 158, 11));
        proof {
            lemma_paint_step(fb0, mid, drawn, sfill(x + 4, y as int, 2, 2, pack_argb(255, 245, 158, 11)));
            drawn = drawn.push(sfill(x + 4, y as int, 2, 2, pack_argb(255, 245, 158, 11)));
        }
        let ghost mid = *fb;
        fb.fill_rect(x + 10, y, 2, 2, Color::from_rgb(245, 158, 11));
        proof {
            lemma_paint_step(fb0, mid, drawn, sfill(x + 10, y as int, 2, 2, pack_argb(255, 245, 158, 11)));
            drawn = drawn.push(sfill(x + 10, y as int, 2, 2, pack_argb(255, 245, 158, 11)));
        }
        let ghost mid = *fb;
        fb.fill_rect(x + 4, y + 14, 2, 2, Color::from_rgb(245, 158, 11));
        proof {
            lemma_paint_step(fb0, mid, drawn, sfill(x + 4, y + 14, 2, 2, pack_argb(255, 245, 158, 11)));
            drawn = drawn.push(sfill(x + 4, y + 14, 2, 2, pack_argb(255, 245, 158, 11)));
        }
        let ghost mid = *fb;
        fb.fill_rect(x + 10, y + 14, 2, 2, Color::from_rgb(245, 158, 11));
        proof {
            lemma_paint_step(fb0, mid, drawn, sfill(x + 10, y + 14, 2, 2, pack_argb(255, 245, 158, 11)));
            drawn = drawn.push(sfill(x + 10, y + 14, 2, 2, pack_argb(255, 245, 158, 11)));
        }
    assert(drawn =~= icon16_sysinfo_shapes(x as int, y as int));
}

/// The shapes of the 16-pixel calculator icon at `(x, y)`, in drawing order.
pub open spec fn icon16_calculator_shapes(x: int, y: int) -> Seq<ShapeV> {
    seq![
        sfill(x + 1, y, 14, 16, pack_argb(255, 30, 41, 59)),
        soutline(x + 1, y, 14, 16, pack_argb(255, 100, 116, 139)),
        sfill(x + 3, y + 2, 10, 3, pack_argb(255, 20, 83, 45)),
        sfill(x + 3, y + 7, 2, 2, pack_argb(255, 148, 163, 184)),
        sfill(x + 7, y + 7, 2, 2, pack_argb(255, 148, 163, 184)),
        sfill(x + 11, y + 7, 2, 2, pack_argb(255, 245, 158, 11)),
        sfill(x + 3, y + 11, 2, 2, pack_argb(255, 148, 163, 184)),
        sfill(x + 7, y + 11, 2, 2, pack_argb(255, 14, 165, 233)),
        sfill(x + 11, y + 11, 2, 2, pack_argb(255, 245, 158, 11)),
    ]
}

fn icon16_calculator(fb: &mut Framebuffer, x: isize, y: isize)
    requires
        old(fb).wf(),
        x + 16 <= isize::MAX,
        y + 16 <= isize::MAX,
    ensures
        final(fb).wf(),
        final(fb).same_frame(old(fb)),
        unchanged_outside(old(fb).backbuffer@, final(fb).backbuffer@, old(fb).width as int, x as int, y as int, 16, 16),
        final(fb).backbuffer@ == painted(*old(fb), old(fb).backbuffer@, icon16_calculator_shapes(x as int, y as int)),
{
    let ghost fb0 = *fb;
    let ghost mut drawn: Seq<ShapeV> = Seq::empty();
        let ghost mid = *fb;
        fb.fill_rect(x + 1, y, 14, 16, Color::from_rgb(30, 41, 59));
        proof {
            lemma_paint_step(fb0, mid, drawn, sfill(x + 1, y as int, 14, 16, pack_argb(255, 30, 41, 59)));
            drawn = drawn.push(sfill(x + 1, y as int, 14, 16, pack_argb(255, 30, 41, 59)));
        }
        let ghost mid = *fb;
        fb.draw_rect(x + 1, y, 14, 16, Color::from_rgb(100, 116, 139));
        proof {
            lemma_paint_step(fb0, mid, drawn, soutline(x + 1, y as int, 14, 16, pack_argb(255, 100, 116, 139)));
            drawn = drawn.push(soutline(x + 1, y as int, 14, 16, pack_argb(255, 100, 116, 139)));
        }
        // Screen
        let ghost mid = *fb;
        fb.fill_rect(x + 3, y + 2, 10, 3, Color::from_rgb(20, 83, 45));
        proof {
            lemma_paint_step(fb0, mid, drawn, sfill(x + 3, y + 2, 10, 3, pack_argb(255, 20, 83, 45)));
            drawn = drawn.push(sfill(x + 3, y + 2, 10, 3, pack_argb(255, 20, 83, 45)));
        }
        // Buttons
        let ghost mid = *fb;
        fb.fill_rect(x + 3, y + 7, 2, 2, Color::from_rgb(148, 163, 184));
        proof {
            lemma_paint_step(fb0, mid, drawn, sfill(x + 3, y + 7, 2, 2, pack_argb(255, 148, 163, 184)));
            drawn = drawn.push(sfill(x + 3, y + 7, 2, 2, pack_argb(255, 148, 163, 184)));
        }
        let ghost mid = *fb;
        fb.fill_rect(x + 7, y + 7, 2, 2, Color::from_rgb(148, 163, 184));
        proof {
            lemma_paint_step(fb0, mid, drawn, sfill(x + 7, y + 7, 2, 2, pack_argb(255, 148, 163, 184)));
            drawn = drawn.push(sfill(x + 7, y + 7, 2, 2, pack_argb(255, 148, 163, 184)));
        }
        let ghost mid = *fb;
        fb.fill_rect(x + 11, y + 7, 2, 2, Color::from_rgb(245, 158, 11));
        proof {
            lemma_paint_step(fb0, mid, drawn, sfill(x + 11, y + 7, 2, 2, pack_argb(255, 245, 158, 11)));
            drawn = drawn.push(sfill(x + 11, y + 7, 2, 2, pack_argb(255, 245, 158, 11)));
        }
        let ghost mid = *fb;
        fb.fill_rect(x + 3, y + 11, 2, 2, Color::from_rgb(148, 163, 184));
        proof {
            lemma_paint_step(fb0, mid, drawn, sfill(x + 3, y + 11, 2, 2, pack_argb(255, 148, 163, 184)));
            drawn = drawn.push(sfill(x + 3, y + 11, 2, 2, pack_argb(255, 148, 163, 184)));
        }
        let ghost mid = *fb;
        fb.fill_rect(x + 7, y + 11, 2, 2, Color::from_rgb(14, 165, 233));
        proof {
            lemma_paint_step(fb0, mid, drawn, sfill(x + 7, y + 11, 2, 2, pack_argb(255, 14, 165, 233)));
            drawn = drawn.push(sfill(x + 7, y + 11, 2, 2, pack_argb(255, 14, 165, 233)));
        }
        let ghost mid = *fb;
        fb.fill_rect(x + 11, y + 11, 2, 2, Color::from_rgb(245, 158, 11));
        proof {
            lemma_paint_step(fb0, mid, drawn, sfill(x + 11, y + 11, 2, 2, pack_argb(255, 245, 158, 11)));
            drawn = drawn.push(sfill(x + 11, y + 11, 2, 2, pack_argb(255, 245, 158, 11)));
        }
    assert(drawn =~= icon16_calculator_shapes(x as int, y as int));
}

/// The shapes of the 16-pixel notepad icon at `(x, y)`, in drawing order.
pub open spec fn icon16_notepad_shapes(x: int, y: int) -> Seq<ShapeV> {
    seq![
        sfill(x + 2, y, 12, 16, pack_argb(255, 248, 250, 252)),
        soutline(x + 2, y, 12, 16, pack_argb(255, 148, 163, 184)),
        sfill(x + 4, y + 4, 6, 1, pack_argb(255, 59, 130, 246)),
        sfill(x + 4, y + 7, 8, 1, pack_argb(255, 100, 116, 139)),
        sfill(x + 4, y + 10, 7, 1, pack_argb(255, 100, 116, 139)),
        sfill(x + 9, y + 11, 4, 3, pack_argb(255, 234, 179, 8)),
    ]
}

fn icon16_notepad(fb: &mut Framebuffer, x: isize, y: isize)
    requires
        old(fb).wf(),
        x + 16 <= isize::MAX,
        y + 16 <= isize::MAX,
    ensures
        final(fb).wf(),
        final(fb).same_frame(old(fb)),
        unchanged_outside(old(fb).backbuffer@, final(fb).backbuffer@, old(fb).width as int, x as int, y as int, 16, 16),
        final(fb).backbuffer@ == painted(*old(fb), old(fb).backbuffer@, icon16_notepad_shapes(x as int, y as int)),
{
    let ghost fb0 = *fb;
    let ghost mut drawn: Seq<ShapeV> = Seq::empty();
        let ghost mid = *fb;
        fb.fill_rect(x + 2, y, 12, 16, Color::from_rgb(248, 250, 252));
        proof {
            lemma_paint_step(fb0, mid, drawn, sfill(x + 2, y as int, 12, 16, pack_argb(255, 248, 250, 252)));
            drawn = drawn.push(sfill(x + 2, y as int, 12, 16, pack_argb(255, 248, 250, 252)));
        }
        let ghost mid = *fb;
        fb.draw_rect(x + 2, y, 12, 16, Color::from_rgb(148, 163, 184));
        proof {
            lemma_paint_step(fb0, mid, drawn, soutline(x + 2, y as int, 12, 16, pack_argb(255, 148, 163, 184)));
            drawn = drawn.push(soutline(x + 2, y as int, 12, 16, pack_argb(255, 148, 163, 184)));
        }
        let ghost mid = *fb;
        fb.fill_rect(x + 4, y + 4, 6, 1, Color::from_rgb(59, 130, 246));
        proof {
            lemma_paint_step(fb0, mid, drawn, sfill(x + 4, y + 4, 6, 1, pack_argb(255, 59, 130, 246)));
            drawn = drawn.push(sfill(x + 4, y + 4, 6, 1, pack_argb(255, 59, 130, 246)));
        }
        let ghost mid = *fb;
        fb.fill_rect(x + 4, y + 7, 8, 1, Color::from_rgb(100, 116, 139));
        proof {
            lemma_paint_step(fb0, mid, drawn, sfill(x + 4, y + 7, 8, 1, pack_argb(255, 100, 116, 139)));
            drawn = drawn.push(sfill(x + 4, y + 7, 8, 1, pack_argb(255, 100, 116, 139)));
        }
        let ghost mid = *fb;
        fb.fill_rect(x + 4, y + 10, 7, 1, Color::from_rgb(100, 116, 139));
        proof {
            lemma_paint_step(fb0, mid, drawn, sfill(x + 4, y + 10, 7, 1, pack_argb(255, 100, 116, 139)));
            drawn = drawn.push(sfill(x + 4, y + 10, 7, 1, pack_argb(255, 100, 116, 139)));
        }
        // Pencil
        let ghost mid = *fb;
        fb.fill_rect(x + 9, y + 11, 4, 3, Color::from_rgb(234, 179, 8));
        proof {
            lemma_paint_step(fb0, mid, drawn, sfill(x + 9, y + 11, 4, 3, pack_argb(255, 234, 179, 8)));
            drawn = drawn.push(sfill(x + 9, y + 11, 4, 3, pack_argb(255, 234, 179, 8)));
        }
    assert(drawn =~= icon16_notepad_shapes(x as int, y as int));
}

/// The shapes of the 16-pixel snake icon at `(x, y)`, in drawing order.
pub open spec fn icon16_snake_shapes(x: int, y: int) -> Seq<ShapeV> {
    seq![
        sfill(x, y, 16, 16, pack_argb(255, 15, 23, 42)),
        soutline(x, y, 16, 16, pack_argb(255, 51, 65, 85)),
        sfill(x + 3, y + 11, 2, 2, pack_argb(255, 34, 197, 94)),
        sfill(x + 5, y + 11, 2, 2, pack_argb(255, 34, 197, 94)),
        sfill(x + 7, y + 11, 2, 2, pack_argb(255, 34, 197, 94)),
        sfill(x + 7, y + 8, 2, 2, pack_argb(255, 34, 197, 94)),
        sfill(x + 10, y + 8, 2, 2, pack_argb(255, 34, 197, 94)),
        sfill(x + 10, y + 5, 2, 2, pack_argb(255, 74, 222, 128)),
        sfill(x + 3, y + 4, 3, 3, pack_argb(255, 239, 68, 68)),
    ]
}

fn icon16_snake(fb: &mut Framebuffer, x: isize, y: isize)
    requires
        old(fb).wf(),
        x + 16 <= isize::MAX,
        y + 16 <= isize::MAX,
    ensures
        final(fb).wf(),
        final(fb).same_frame(old(fb)),
        unchanged_outside(old(fb).backbuffer@, final(fb).backbuffer@, old(fb).width as int, x as int, y as int, 16, 16),
        final(fb).backbuffer@ == painted(*old(fb), old(fb).backbuffer@, icon16_snake_shapes(x as int, y as int)),
{
    let ghost fb0 = *fb;
    let ghost mut drawn: Seq<ShapeV> = Seq::empty();
        let ghost mid = *fb;
        fb.fill_rect(x, y, 16, 16, Color::from_rgb(15, 23, 42));
        proof {
            lemma_paint_step(fb0, mid, drawn, sfill(x as int, y as int, 16, 16, pack_argb(255, 15, 23, 42)));
            drawn = drawn.push(sfill(x as int, y as int, 16, 16, pack_argb(255, 15, 23, 42)));
        }
        let ghost mid = *fb;
        fb.draw_rect(x, y, 16, 16, Color::from_rgb(51, 65, 85));
        proof {
            lemma_paint_step(fb0, mid, drawn, soutline(x as int, y as int, 16, 16, pack_argb(255, 51, 65, 85)));
            drawn = drawn.push(soutline(x as int, y as int, 16, 16, pack_argb(255, 51, 65, 85)));
        }
        // Snake
        let sc = Color::from_rgb(34, 197, 94);
        let ghost mid = *fb;
        fb.fill_rect(x + 3, y + 11, 2, 2, sc);
        proof {
            lemma_paint_step(fb0, mid, drawn, sfill(x + 3, y + 11, 2, 2, pack_argb(255, 34, 197, 94)));
            drawn = drawn.push(sfill(x + 3, y + 11, 2, 2, pack_argb(255, 34, 197, 94)));
        }
        let ghost mid = *fb;
        fb.fill_rect(x + 5, y + 11, 2, 2, sc);
        proof {
            lemma_paint_step(fb0, mid, drawn, sfill(x + 5, y + 11, 2, 2, pack_argb(255, 34, 197, 94)));
            drawn = drawn.push(sfill(x + 5, y + 11, 2, 2, pack_argb(255, 34, 197, 94)));
        }
        let ghost mid = *fb;
        fb.fill_rect(x + 7, y + 11, 2, 2, sc);
        proof {
            lemma_paint_step(fb0, mid, drawn, sfill(x + 7, y + 11, 2, 2, pack_argb(255, 34, 197, 94)));
            drawn = drawn.push(sfill(x + 7, y + 11, 2, 2, pack_argb(255, 34, 197, 94)));
        }
        let ghost mid = *fb;
        fb.fill_rect(x + 7, y + 8, 2, 2, sc);
        proof {
            lemma_paint_step(fb0, mid, drawn, sfill(x + 7, y + 8, 2, 2, pack_argb(255, 34, 197, 94)));
            drawn = drawn.push(sfill(x + 7, y + 8, 2, 2, pack_argb(255, 34, 197, 94)));
        }
        let ghost mid = *fb;
        fb.fill_rect(x + 10, y + 8, 2, 2, sc);
        proof {
            lemma_paint_step(fb0, mid, drawn, sfill(x + 10, y + 8, 2, 2, pack_argb(255, 34, 197, 94)));
            drawn = drawn.push(sfill(x + 10, y + 8, 2, 2, pack_argb(255, 34, 197, 94)));
        }
        let ghost mid = *fb;
        fb.fill_rect(x + 10, y + 5, 2, 2, Color::from_rgb(74, 222, 128));
        proof {
            lemma_paint_step(fb0, mid, drawn, sfill(x + 10, y + 5, 2, 2, pack_argb(255, 74, 222, 128)));
            drawn = drawn.push(sfill(x + 10, y + 5, 2, 2, pack_argb(255, 74, 222, 128)));
        }
        // Apple
        let ghost mid = *fb;
        fb.fill_rect(x + 3, y + 4, 3, 3, Color::from_rgb(239, 68, 68));
        proof {
            lemma_paint_step(fb0, mid, drawn, sfill(x + 3, y + 4, 3, 3, pack_argb(255, 239, 68, 68)));
            drawn = drawn.push(sfill(x + 3, y + 4, 3, 3, pack_argb(255, 239, 68, 68)));
        }
    assert(drawn =~= icon16_snake_shapes(x as int, y as int));
}

/// The shapes of the 16-pixel music icon at `(x, y)`, in drawing order.
pub open spec fn icon16_music_shapes(x: int, y: int) -> Seq<ShapeV> {
    seq![
        sfill(x, y, 16, 16, pack_argb(255, 24, 24, 37)),
        soutline(x, y, 16, 16, pack_argb(255, 168, 85, 247)),
        sfill(x + 3, y + 10, 4, 3, pack_argb(255, 244, 63, 94)),
        sfill(x + 5, y + 4, 2, 8, pack_argb(255, 244, 63, 94)),
        sfill(x + 7, y + 4, 3, 2, pack_argb(255, 244, 63, 94)),
        sfill(x + 11, y + 8, 1, 5, pack_argb(255, 56, 189, 248)),
        sfill(x + 13, y + 5, 1, 8, pack_argb(255, 34, 197, 94)),
    ]
}

fn icon16_music(fb: &mut Framebuffer, x: isize, y: isize)
    requires
        old(fb).wf(),
        x + 16 <= isize::MAX,
        y + 16 <= isize::MAX,
    ensures
        final(fb).wf(),
        final(fb).same_frame(old(fb)),
        unchanged_outside(old(fb).backbuffer@, final(fb).backbuffer@, old(fb).width as int, x as int, y as int, 16, 16),
        final(fb).backbuffer@ == painted(*old(fb), old(fb).backbuffer@, icon16_music_shapes(x as int, y as int)),
{
    let ghost fb0 = *fb;
    let ghost mut drawn: Seq<ShapeV> = Seq::empty();
        let ghost mid = *fb;
        fb.fill_rect(x, y, 16, 16, Color::from_rgb(24, 24, 37));
        proof {
            lemma_paint_step(fb0, mid, drawn, sfill(x as int, y as int, 16, 16, pack_argb(255, 24, 24, 37)));
            drawn = drawn.push(sfill(x as int, y as int, 16, 16, pack_argb(255, 24, 24, 37)));
        }
        let ghost mid = *fb;
        fb.draw_rect(x, y, 16, 16, Color::from_rgb(168, 85, 247));
        proof {
            lemma_paint_step(fb0, mid, drawn, soutline(x as int, y as int, 16, 16, pack_argb(255, 168, 85, 247)));
            drawn = drawn.push(soutline(x as int, y as int, 16, 16, pack_argb(255, 168, 85, 247)));
        }
        let nc = Color::from_rgb(244, 63, 94);
        let ghost mid = *fb;
        fb.fill_rect(x + 3, y + 10, 4, 3, nc);
        proof {
            lemma_paint_step(fb0, mid, drawn, sfill(x + 3, y + 10, 4, 3, pack_argb(255, 244, 63, 94)));
            drawn = drawn.push(sfill(x + 3, y + 10, 4, 3, pack_argb(255, 244, 63, 94)));
        }
        let ghost mid = *fb;
        fb.fill_rect(x + 5, y + 4, 2, 8, nc);
        proof {
            lemma_paint_step(fb0, mid, drawn, sfill(x + 5, y + 4, 2, 8, pack_argb(255, 244, 63, 94)));
            drawn = drawn.push(sfill(x + 5, y + 4, 2, 8, pack_argb(255, 244, 63, 94)));
        }
        let ghost mid = *fb;
        fb.fill_rect(x + 7, y + 4, 3, 2, nc);
        proof {
            lemma_paint_step(fb0, mid, drawn, sfill(x + 7, y + 4, 3, 2, pack_argb(255, 244, 63, 94)));
            drawn = drawn.push(sfill(x + 7, y + 4, 3, 2, pack_argb(255, 244, 63, 94)));
        }
        // Equalizer
        let ghost mid = *fb;
        fb.fill_rect(x + 11, y + 8, 1, 5, Color::from_rgb(56, 189, 248));
        proof {
            lemma_paint_step(fb0, mid, drawn, sfill(x + 11, y + 8, 1, 5, pack_argb(255, 56, 189, 248)));
            drawn = drawn.push(sfill(x + 11, y + 8, 1, 5, pack_argb(255, 56, 189, 248)));
        }
        let ghost mid = *fb;
        fb.fill_rect(x + 13, y + 5, 1, 8, Color::from_rgb(34, 197, 94));
        proof {
            lemma_paint_step(fb0, mid, drawn, sfill(x + 13, y + 5, 1, 8, pack_argb(255, 34, 197, 94)));
            drawn = drawn.push(sfill(x + 13, y + 5, 1, 8, pack_argb(255, 34, 197, 94)));
        }
    assert(drawn =~= icon16_music_shapes(x as int, y as int));
}

/// The shapes of the 16-pixel image viewer icon at `(x, y)`, in drawing order.
pub open spec fn icon16_image_viewer_shapes(x: int, y: int) -> Seq<ShapeV> {
    seq![
        sfill(x, y + 1, 16, 14, pack_argb(255, 30, 41, 59)),
        soutline(x, y + 1, 16, 14, pack_argb(255, 148, 163, 184)),
        sfill(x + 10, y + 3, 3, 3, pack_argb(255, 251, 191, 36)),
        sfill(x + 2, y + 9, 6, 5, pack_argb(255, 16, 185, 129)),
        sfill(x + 7, y + 7, 7, 7, pack_argb(255, 79, 70, 229)),
    ]
}

fn icon16_image_viewer(fb: &mut Framebuffer, x: isize, y: isize)
    requires
        old(fb).wf(),
        x + 16 <= isize::MAX,
        y + 16 <= isize::MAX,
    ensures
        final(fb).wf(),
        final(fb).same_frame(old(fb)),
        unchanged_outside(old(fb).backbuffer@, final(fb).backbuffer@, old(fb).width as int, x as int, y as int, 16, 16),
        final(fb).backbuffer@ == painted(*old(fb), old(fb).backbuffer@, icon16_image_viewer_shapes(x as int, y as int)),
{
    let ghost fb0 = *fb;
    let ghost mut drawn: Seq<ShapeV> = Seq::empty();
        let ghost mid = *fb;
        fb.fill_rect(x, y + 1, 16, 14, Color::from_rgb(30, 41, 59));
        proof {
            lemma_paint_step(fb0, mid, drawn, sfill(x as int, y + 1, 16, 14, pack_argb(255, 30, 41, 59)));
            drawn = drawn.push(sfill(x as int, y + 1, 16, 14, pack_argb(255, 30, 41, 59)));
        }
        let ghost mid = *fb;
        fb.draw_rect(x, y + 1, 16, 14, Color::from_rgb(148, 163, 184));
        proof {
            lemma_paint_step(fb0, mid, drawn, soutline(x as int, y + 1, 16, 14, pack_argb(255, 148, 163, 184)));
            drawn = drawn.push(soutline(x as int, y + 1, 16, 14, pack_argb(255, 148, 163, 184)));
        }
        // Sun
        let ghost mid = *fb;
        fb.fill_rect(x + 10, y + 3, 3, 3, Color::from_rgb(251, 191, 36));
        proof {
            lemma_paint_step(fb0, mid, drawn, sfill(x + 10, y + 3, 3, 3, pack_argb(255, 251, 191, 36)));
            drawn = drawn.push(sfill(x + 10, y + 3, 3, 3, pack_argb(255, 251, 191, 36)));
        }
        // Mountains
        let ghost mid = *fb;
        fb.fill_rect(x + 2, y + 9, 6, 5, Color::from_rgb(16, 185, 129));
        proof {
            lemma_paint_step(fb0, mid, drawn, sfill(x + 2, y + 9, 6, 5, pack_argb(255, 16, 185, 129)));
            drawn = drawn.push(sfill(x + 2, y + 9, 6, 5, pack_argb(255, 16, 185, 129)));
        }
        let ghost mid = *fb;
        fb.fill_rect(x + 7, y + 7, 7, 7, Color::from_rgb(79, 70, 229));
        proof {
            lemma_paint_step(fb0, mid, drawn, sfill(x + 7, y + 7, 7, 7, pack_argb(255, 79, 70, 229)));
            drawn = drawn.push(sfill(x + 7, y + 7, 7, 7, pack_argb(255, 79, 70, 229)));
        }
    assert(drawn =~= icon16_image_viewer_shapes(x as int, y as int));
}

/// The shapes of the 16-pixel settings icon at `(x, y)`, in drawing order.
pub open spec fn icon16_settings_shapes(x: int, y: int) -> Seq<ShapeV> {
    seq![
        sfill(x, y, 16, 16, pack_argb(255, 30, 41, 59)),
        soutline(x, y, 16, 16, pack_argb(255, 71, 85, 105)),
        sfill(x + 7, y + 1, 2, 2, pack_argb(255, 148, 163, 184)),
        sfill(x + 7, y + 13, 2, 2, pack_argb(255, 148, 163, 184)),
        sfill(x + 1, y + 7, 2, 2, pack_argb(255, 148, 163, 184)),
        sfill(x + 13, y + 7, 2, 2, pack_argb(255, 148, 163, 184)),
        sfill(x + 4, y + 4, 8, 8, pack_argb(255, 148, 163, 184)),
        sfill(x + 6, y + 6, 4, 4, pack_argb(255, 15, 23, 42)),
        sfill(x + 7, y + 7, 2, 2, pack_argb(255, 56, 189, 248)),
    ]
}

fn icon16_settings(fb: &mut Framebuffer, x: isize, y: isize)
    requires
        old(fb).wf(),
        x + 16 <= isize::MAX,
        y + 16 <= isize::MAX,
    ensures
        final(fb).wf(),
        final(fb).same_frame(old(fb)),
        unchanged_outside(old(fb).backbuffer@, final(fb).backbuffer@, old(fb).width as int, x as int, y as int, 16, 16),
        final(fb).backbuffer@ == painted(*old(fb), old(fb).backbuffer@, icon16_settings_shapes(x as int, y as int)),
{
    let ghost fb0 = *fb;
    let ghost mut drawn: Seq<ShapeV> = Seq::empty();
        let ghost mid = *fb;
        fb.fill_rect(x, y, 16, 16, Color::from_rgb(30, 41, 59));
        proof {
            lemma_paint_step(fb0, mid, drawn, sfill(x as int, y as int, 16, 16, pack_argb(255, 30, 41, 59)));
            drawn = drawn.push(sfill(x as int, y as int, 16, 16, pack_argb(255, 30, 41, 59)));
        }
        let ghost mid = *fb;
        fb.draw_rect(x, y, 16, 16, Color::from_rgb(71, 85, 105));
        proof {
            lemma_paint_step(fb0, mid, drawn, soutline(x as int, y as int, 16, 16, pack_argb(255, 71, 85, 105)));
            drawn = drawn.push(soutline(x as int, y as int, 16, 16, pack_argb(255, 71, 85, 105)));
        }
        let gm = Color::from_rgb(148, 163, 184);
        // Teeth
        let ghost mid = *fb;
        fb.fill_rect(x + 7, y + 1, 2, 2, gm);
        proof {
            lemma_paint_step(fb0, mid, drawn, sfill(x + 7, y + 1, 2, 2, pack_argb(255, 148, 163, 184)));
            drawn = drawn.push(sfill(x + 7, y + 1, 2, 2, pack_argb(255, 148, 163, 184)));
        }
        let ghost mid = *fb;
        fb.fill_rect(x + 7, y + 13, 2, 2, gm);
        proof {
            lemma_paint_step(fb0, mid, drawn, sfill(x + 7, y + 13, 2, 2, pack_argb(255, 148, 163, 184)));
            drawn = drawn.push(sfill(x + 7, y + 13, 2, 2, pack_argb(255, 148, 163, 184)));
        }
        let ghost mid = *fb;
        fb.fill_rect(x + 1, y + 7, 2, 2, gm);
        proof {
            lemma_paint_step(fb0, mid, drawn, sfill(x + 1, y + 7, 2, 2, pack_argb(255, 148, 163, 184)));
            drawn = drawn.push(sfill(x + 1, y + 7, 2, 2, pack_argb(255, 148, 163, 184)));
        }
        let ghost mid = *fb;
        fb.fill_rect(x + 13, y + 7, 2, 2, gm);
        proof {
            lemma_paint_step(fb0, mid, drawn, sfill(x + 13, y + 7, 2, 2, pack_argb(255, 148, 163, 184)));
            drawn = drawn.push(sfill(x + 13, y + 7, 2, 2, pack_argb(255, 148, 163, 184)));
        }
        // Gear body
        let ghost mid = *fb;
        fb.fill_rect(x + 4, y + 4, 8, 8, gm);
        proof {
            lemma_paint_step(fb0, mid, drawn, sfill(x + 4, y + 4, 8, 8, pack_argb(255, 148, 163, 184)));
            drawn = drawn.push(sfill(x + 4, y + 4, 8, 8, pack_argb(255, 148, 163, 184)));
        }
        let ghost mid = *fb;
        fb.fill_rect(x + 6, y + 6, 4, 4, Color::from_rgb(15, 23, 42));
        proof {
            lemma_paint_step(fb0, mid, drawn, sfill(x + 6, y + 6, 4, 4, pack_argb(255, 15, 23, 42)));
            drawn = drawn.push(sfill(x + 6, y + 6, 4, 4, pack_argb(255, 15, 23, 42)));
        }
        let ghost mid = *fb;
        fb.fill_rect(x + 7, y + 7, 2, 2, Color::from_rgb(56, 189, 248));
        proof {
            lemma_paint_step(fb0, mid, drawn, sfill(x + 7, y + 7, 2, 2, pack_argb(255, 56, 189, 248)));
            drawn = drawn.push(sfill(x + 7, y + 7, 2, 2, pack_argb(255, 56, 189, 248)));
        }
    assert(drawn =~= icon16_settings_shapes(x as int, y as int));
}

/// The shapes of the 16-pixel elf runner icon at `(x, y)`, in drawing order.
pub open spec fn icon16_elf_runner_shapes(x: int, y: int) -> Seq<ShapeV> {
    seq![
        sfill(x, y, 16, 16, pack_argb(255, 15, 23, 42)),
        soutline(x, y, 16, 16, pack_argb(255, 244, 63, 94)),
        sfill(x + 9, y + 3, 3, 3, pack_argb(255, 251, 113, 133)),
        sfill(x + 6, y + 6, 4, 4, pack_argb(255, 244, 63, 94)),
        sfill(x + 3, y + 9, 4, 4, pack_argb(255, 244, 63, 94)),
        sfill(x + 2, y + 12, 2, 2, pack_argb(255, 245, 158, 11)),
    ]
}

fn icon16_elf_runner(fb: &mut Framebuffer, x: isize, y: isize)
    requires
        old(fb).wf(),
        x + 16 <= isize::MAX,
        y + 16 <= isize::MAX,
    ensures
        final(fb).wf(),
        final(fb).same_frame(old(fb)),
        unchanged_outside(old(fb).backbuffer@, final(fb).backbuffer@, old(fb).width as int, x as int, y as int, 16, 16),
        final(fb).backbuffer@ == painted(*old(fb), old(fb).backbuffer@, icon16_elf_runner_shapes(x as int, y as int)),
{
    let ghost fb0 = *fb;
    let ghost mut drawn: Seq<ShapeV> = Seq::empty();
        let ghost mid = *fb;
        fb.fill_rect(x, y, 16, 16, Color::from_rgb(15, 23, 42));
        proof {
            lemma_paint_step(fb0, mid, drawn, sfill(x as int, y as int, 16, 16, pack_argb(255, 15, 23, 42)));
            drawn = drawn.push(sfill(x as int, y as int, 16, 16, pack_argb(255, 15, 23, 42)));
        }
        let ghost mid = *fb;
        fb.draw_rect(x, y, 16, 16, Color::from_rgb(244, 63, 94));
        proof {
            lemma_paint_step(fb0, mid, drawn, soutline(x as int, y as int, 16, 16, pack_argb(255, 244, 63, 94)));
            drawn = drawn.push(soutline(x as int, y as int, 16, 16, pack_argb(255, 244, 63, 94)));
        }
        let rc = Color::from_rgb(244, 63, 94);
        let ghost mid = *fb;
        fb.fill_rect(x + 9, y + 3, 3, 3, Color::from_rgb(251, 113, 133));
        proof {
            lemma_paint_step(fb0, mid, drawn, sfill(x + 9, y + 3, 3, 3, pack_argb(255, 251, 113, 133)));
            drawn = drawn.push(sfill(x + 9, y + 3, 3, 3, pack_argb(255, 251, 113, 133)));
        }
        let ghost mid = *fb;
        fb.fill_rect(x + 6, y + 6, 4, 4, rc);
        proof {
            lemma_paint_step(fb0, mid, drawn, sfill(x + 6, y + 6, 4, 4, pack_argb(255, 244, 63, 94)));
            drawn = drawn.push(sfill(x + 6, y + 6, 4, 4, pack_argb(255, 244, 63, 94)));
        }
        let ghost mid = *fb;
        fb.fill_rect(x + 3, y + 9, 4, 4, rc);
        proof {
            lemma_paint_step(fb0, mid, drawn, sfill(x + 3, y + 9, 4, 4, pack_argb(255, 244, 63, 94)));
            drawn = drawn.push(sfill(x + 3, y + 9, 4, 4, pack_argb(255, 244, 63, 94)));
        }
        let ghost mid = *fb;
        fb.fill_rect(x + 2, y + 12, 2, 2, Color::from_rgb(245, 158, 11)); // flame
        proof {
            lemma_paint_step(fb0, mid, drawn, sfill(x + 2, y + 12, 2, 2, pack_argb(255, 245, 158, 11)));
            drawn = drawn.push(sfill(x + 2, y + 12, 2, 2, pack_argb(255, 245, 158, 11)));
        }
    assert(drawn =~= icon16_elf_runner_shapes(x as int, y as int));
}

/// The shapes of the 16-pixel doom icon at `(x, y)`, in drawing order.
pub open spec fn icon16_doom_shapes(x: int, y: int) -> Seq<ShapeV> {
    seq![
        sfill(x, y, 16, 16, pack_argb(255, 30, 10, 10)),
        soutline(x, y, 16, 16, pack_argb(255, 220, 38, 38)),
        sfill(x + 3, y + 3, 1, 1, pack_argb(255, 234, 179, 8)),
        sfill(x + 4, y + 4, 1, 1, pack_argb(255, 234, 179, 8)),
        sfill(x + 12, y + 3, 1, 1, pack_argb(255, 234, 179, 8)),
        sfill(x + 11, y + 4, 1, 1, pack_argb(255, 234, 179, 8)),
        sfill(x + 4, y + 5, 8, 7, pack_argb(255, 220, 38, 38)),
        sfill(x + 5, y + 7, 1, 1, pack_argb(255, 250, 204, 21)),
        sfill(x + 10, y + 7, 1, 1, pack_argb(255, 250, 204, 21)),
        sfill(x + 6, y + 10, 1, 1, palette::WHITE),
        sfill(x + 9, y + 10, 1, 1, palette::WHITE),
    ]
}

fn icon16_doom(fb: &mut Framebuffer, x: isize, y: isize)
    requires
        old(fb).wf(),
        x + 16 <= isize::MAX,
        y + 16 <= isize::MAX,
    ensures
        final(fb).wf(),
        final(fb).same_frame(old(fb)),
        unchanged_outside(old(fb).backbuffer@, final(fb).backbuffer@, old(fb).width as int, x as int, y as int, 16, 16),
        final(fb).backbuffer@ == painted(*old(fb), old(fb).backbuffer@, icon16_doom_shapes(x as int, y as int)),
{
    let ghost fb0 = *fb;
    let ghost mut drawn: Seq<ShapeV> = Seq::empty();
        let ghost mid = *fb;
        fb.fill_rect(x, y, 16, 16, Color::from_rgb(30, 10, 10));
        proof {
            lemma_paint_step(fb0, mid, drawn, sfill(x as int, y as int, 16, 16, pack_argb(255, 30, 10, 10)));
            drawn = drawn.push(sfill(x as int, y as int, 16, 16, pack_argb(255, 30, 10, 10)));
        }
        let ghost mid = *fb;
        fb.draw_rect(x, y, 16, 16, Color::from_rgb(220, 38, 38));
        proof {
            lemma_paint_step(fb0, mid, drawn, soutline(x as int, y as int, 16, 16, pack_argb(255, 220, 38, 38)));
            drawn = drawn.push(soutline(x as int, y as int, 16, 16, pack_argb(255, 220, 38, 38)));
        }
        // Horns
        let horn_c = Color::from_rgb(234, 179, 8);
        let ghost mid = *fb;
        fb.draw_pixel(x + 3, y + 3, horn_c);
        proof {
            lemma_paint_step(fb0, mid, drawn, sfill(x + 3, y + 3, 1, 1, pack_argb(255, 234, 179, 8)));
            drawn = drawn.push(sfill(x + 3, y + 3, 1, 1, pack_argb(255, 234, 179, 8)));
        }
        let ghost mid = *fb;
        fb.draw_pixel(x + 4, y + 4, horn_c);
        proof {
            lemma_paint_step(fb0, mid, drawn, sfill(x + 4, y + 4, 1, 1, pack_argb(255, 234, 179, 8)));
            drawn = drawn.push(sfill(x + 4, y + 4, 1, 1, pack_argb(255, 234, 179, 8)));
        }
        let ghost mid = *fb;
        fb.draw_pixel(x + 12, y + 3, horn_c);
        proof {
            lemma_paint_step(fb0, mid, drawn, sfill(x + 12, y + 3, 1, 1, pack_argb(255, 234, 179, 8)));
            drawn = drawn.push(sfill(x + 12, y + 3, 1, 1, pack_argb(255, 234, 179, 8)));
        }
        let ghost mid = *fb;
        fb.draw_pixel(x + 11, y + 4, horn_c);
        proof {
            lemma_paint_step(fb0, mid, drawn, sfill(x + 11, y + 4, 1, 1, pack_argb(255, 234, 179, 8)));
            drawn = drawn.push(sfill(x + 11, y + 4, 1, 1, pack_argb(255, 234, 179, 8)));
        }
        // Face
        let ghost mid = *fb;
        fb.fill_rect(x + 4, y + 5, 8, 7, Color::from_rgb(220, 38, 38));
        proof {
            lemma_paint_step(fb0, mid, drawn, sfill(x + 4, y + 5, 8, 7, pack_argb(255, 220, 38, 38)));
            drawn = drawn.push(sfill(x + 4, y + 5, 8, 7, pack_argb(255, 220, 38, 38)));
        }
        // Eyes
        let ghost mid = *fb;
        fb.draw_pixel(x + 5, y + 7, Color::from_rgb(250, 204, 21));
        proof {
            lemma_paint_step(fb0, mid, drawn, sfill(x + 5, y + 7, 1, 1, pack_argb(255, 250, 204, 21)));
            drawn = drawn.push(sfill(x + 5, y + 7, 1, 1, pack_argb(255, 250, 204, 21)));
        }
        let ghost mid = *fb;
        fb.draw_pixel(x + 10, y + 7, Color::from_rgb(250, 204, 21));
        proof {
            lemma_paint_step(fb0, mid, drawn, sfill(x + 10, y + 7, 1, 1, pack_argb(255, 250, 204, 21)));
            drawn = drawn.push(sfill(x + 10, y + 7, 1, 1, pack_argb(255, 250, 204, 21)));
        }
        // Fangs
        let ghost mid = *fb;
        fb.draw_pixel(x + 6, y + 10, Color::from_raw(palette::WHITE));
        proof {
            lemma_paint_step(fb0, mid, drawn, sfill(x + 6, y + 10, 1, 1, palette::WHITE));
            drawn = drawn.push(sfill(x + 6, y + 10, 1, 1, palette::WHITE));
        }
        let ghost mid = *fb;
        fb.draw_pixel(x + 9, y + 10, Color::from_raw(palette::WHITE));
        proof {
            lemma_paint_step(fb0, mid, drawn, sfill(x + 9, y + 10, 1, 1, palette::WHITE));
            drawn = drawn.push(sfill(x + 9, y + 10, 1, 1, palette::WHITE));
        }
    assert(drawn =~= icon16_doom_shapes(x as int, y as int));
}

/// The shapes of the 16-pixel power icon at `(x, y)`, in drawing order.
pub open spec fn icon16_power_shapes(x: int, y: int) -> Seq<ShapeV> {
    seq![
        sfill(x, y, 16, 16, pack_argb(255, 69, 10, 10)),
        soutline(x, y, 16, 16, pack_argb(255, 239, 68, 68)),
        soutline(x + 3, y + 4, 10, 9, pack_argb(255, 248, 113, 113)),
        sfill(x + 6, y + 3, 4, 3, pack_argb(255, 69, 10, 10)),
        sfill(x + 7, y + 2, 2, 6, palette::WHITE),
    ]
}

fn icon16_power(fb: &mut Framebuffer, x: isize, y: isize)
    requires
        old(fb).wf(),
        x + 16 <= isize::MAX,
        y + 16 <= isize::MAX,
    ensures
        final(fb).wf(),
        final(fb).same_frame(old(fb)),
        unchanged_outside(old(fb).backbuffer@, final(fb).backbuffer@, old(fb).width as int, x as int, y as int, 16, 16),
        final(fb).backbuffer@ == painted(*old(fb), old(fb).backbuffer@, icon16_power_shapes(x as int, y as int)),
{
    let ghost fb0 = *fb;
    let ghost mut drawn: Seq<ShapeV> = Seq::empty();
        let ghost mid = *fb;
        fb.fill_rect(x, y, 16, 16, Color::from_rgb(69, 10, 10));
        proof {
            lemma_paint_step(fb0, mid, drawn, sfill(x as int, y as int, 16, 16, pack_argb(255, 69, 10, 10)));
            drawn = drawn.push(sfill(x as int, y as int, 16, 16, pack_argb(255, 69, 10, 10)));
        }
        let ghost mid = *fb;
        fb.draw_rect(x, y, 16, 16, Color::from_rgb(239, 68, 68));
        proof {
            lemma_paint_step(fb0, mid, drawn, soutline(x as int, y as int, 16, 16, pack_argb(255, 239, 68, 68)));
            drawn = drawn.push(soutline(x as int, y as int, 16, 16, pack_argb(255, 239, 68, 68)));
        }
        let ghost mid = *fb;
        fb.draw_rect(x + 3, y + 4, 10, 9, Color::from_rgb(248, 113, 113));
        proof {
            lemma_paint_step(fb0, mid, drawn, soutline(x + 3, y + 4, 10, 9, pack_argb(255, 248, 113, 113)));
            drawn = drawn.push(soutline(x + 3, y + 4, 10, 9, pack_argb(255, 248, 113, 113)));
        }
        let ghost mid = *fb;
        fb.fill_rect(x + 6, y + 3, 4, 3, Color::from_rgb(69, 10, 10));
        proof {
            lemma_paint_step(fb0, mid, drawn, sfill(x + 6, y + 3, 4, 3, pack_argb(255, 69, 10, 10)));
            drawn = drawn.push(sfill(x + 6, y + 3, 4, 3, pack_argb(255, 69, 10, 10)));
        }
        let ghost mid = *fb;
        fb.fill_rect(x + 7, y + 2, 2, 6, Color::from_raw(palette::WHITE));
        proof {
            lemma_paint_step(fb0, mid, drawn, sfill(x + 7, y + 2, 2, 6, palette::WHITE));
            drawn = drawn.push(sfill(x + 7, y + 2, 2, 6, palette::WHITE));
        }
    assert(drawn =~= icon16_power_shapes(x as int, y as int));
}

/// The shapes of the 16-pixel icon `icon` at `(x, y)`, in drawing order.
pub open spec fn icon16_shapes(icon: AppIcon, x: int, y: int) -> Seq<ShapeV> {
    match icon {
        AppIcon::Terminal => icon16_terminal_shapes(x, y),
        AppIcon::SysInfo => icon16_sysinfo_shapes(x, y),
        AppIcon::Calculator => icon16_calculator_shapes(x, y),
        AppIcon::Notepad => icon16_notepad_shapes(x, y),
        AppIcon::Snake => icon16_snake_shapes(x, y),
        AppIcon::Music => icon16_music_shapes(x, y),
        AppIcon::ImageViewer => icon16_image_viewer_shapes(x, y),
        AppIcon::Settings => icon16_settings_shapes(x, y),
        AppIcon::ElfRunner => icon16_elf_runner_shapes(x, y),
        AppIcon::Doom => icon16_doom_shapes(x, y),
        AppIcon::Power => icon16_power_shapes(x, y),
    }
}

/// Draws the 16x16 pixel-art icon with its top-left corner at `x`, `y`:
/// exactly the pixels of `icon16_shapes`; pixels outside that box are left
/// as they are.
pub fn draw_icon_16(fb: &mut Framebuffer, x: isize, y: isize, icon: AppIcon)
    requires
        old(fb).wf(),
        x + 16 <= isize::MAX,
        y + 16 <= isize::MAX,
    ensures
        final(fb).wf(),
        final(fb).same_frame(old(fb)),
        unchanged_outside(old(fb).backbuffer@, final(fb).backbuffer@, old(fb).width as int, x as int, y as int, 16, 16),
        final(fb).backbuffer@ == painted(*old(fb), old(fb).backbuffer@, icon16_shapes(icon, x as int, y as int)),
{
    match icon {
        AppIcon::Terminal => icon16_terminal(fb, x, y),
        AppIcon::SysInfo => icon16_sysinfo(fb, x, y),
        AppIcon::Calculator => icon16_calculator(fb, x, y),
        AppIcon::Notepad => icon16_notepad(fb, x, y),
        AppIcon::Snake => icon16_snake(fb, x, y),
        AppIcon::Music => icon16_music(fb, x, y),
        AppIcon::ImageViewer => icon16_image_viewer(fb, x, y),
        AppIcon::Settings => icon16_settings(fb, x, y),
        AppIcon::ElfRunner => icon16_elf_runner(fb, x, y),
        AppIcon::Doom => icon16_doom(fb, x, y),
        AppIcon::Power => icon16_power(fb, x, y),
    }
}

} // verus!
