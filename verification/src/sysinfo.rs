//! The system information window's texts and figures: memory, heap use,
//! uptime and the clock.
use vstd::prelude::*;
use crate::chars::{append_chars, append_str, chars_of, format_padded, zero_pad};
use crate::rtc::RtcTime;
use crate::text::{decimal_digits, format_u64};
use crate::color::Color;
use crate::framebuffer::Framebuffer;
use crate::memory::SystemMemoryInfo;
use crate::palette;
use crate::render::{clipped, drawn_over, inner};
use crate::scene::{add_fill, add_label, add_shape, add_text, clip_to, paint, painted, scene_ok, sfill, shapes_view, stext, Shape, ShapeV};
use crate::color::pack_argb;

verus! {

/// The system information window (it keeps no state).
pub struct SysInfoApp;

/// `n` in decimal.
pub open spec fn dec(n: int) -> Seq<char> {
    decimal_digits(n as nat)
}

/// The RAM line for `total` bytes: whole mebibytes (at least 1), with the
/// gibibytes to one decimal from 1024 MiB up.
pub open spec fn ram_line(total: u64) -> Seq<char> {
    let mb = if total as int / 1048576 > 1 { total as int / 1048576 } else { 1 };
    if mb >= 1024 {
        dec(mb) + " MB ("@ + dec(mb / 1024) + "."@ + dec(((mb % 1024) * 10) / 1024) + " GB) of RAM"@
    } else {
        dec(mb) + " MB Physical RAM"@
    }
}

/// The heap line: used mebibytes to one decimal, over the total.
pub open spec fn heap_line(used: usize, total: usize) -> Seq<char> {
    dec(used as int / 1048576) + "."@ + dec(((used as int % 1048576) * 10) / 1048576) + " / "@
        + dec(total as int / 1048576) + " MB"@
}

/// The heap gauge's percentage: used over total mebibytes, held to 5..100
/// (10 when the total is under a mebibyte).
pub open spec fn heap_percent_of(used: usize, total: usize) -> int {
    let total_mb = total as int / 1048576;
    if total_mb > 0 {
        let p = ((used as int / 1048576) * 100) / total_mb;
        if p < 5 { 5 } else if p > 100 { 100 } else { p }
    } else {
        10
    }
}

/// The clock line: `hh:mm:ss yyyy-mm-dd`.
pub open spec fn clock_line(t: RtcTime) -> Seq<char> {
    zero_pad(dec(t.hours as int), 2) + ":"@ + zero_pad(dec(t.minutes as int), 2) + ":"@
        + zero_pad(dec(t.seconds as int), 2) + " "@ + zero_pad(dec(t.year as int), 4) + "-"@
        + zero_pad(dec(t.month as int), 2) + "-"@ + zero_pad(dec(t.day as int), 2)
}

/// What the window shows in the client area at `(cx, cy)`, `cw` by `ch`:
/// the gray face; the system name (bold) and edition; a groove; the
/// computer heading and the processor, display, memory, heap and clock
/// lines; a groove; the heap percentage over a sunken gauge with one navy
/// block per 8 pixels of its filled share; and the uptime, with the clock
/// right-aligned beside it when there is room.
pub open spec fn sysinfo_scene(cx: int, cy: int, cw: int, ch: int, mem: SystemMemoryInfo, used: usize, total: usize,
    ticks: u64, now: RtcTime) -> Seq<ShapeV> {
    let div_w = if cw >= 24 { cw - 24 } else { 0 };
    let pct = heap_percent_of(used, total);
    let blocks = ((if div_w >= 4 { div_w - 4 } else { 0 }) * pct / 100) / 8;
    sysinfo_heading(cx, cy, cw, ch) + sysinfo_facts(cx, cy, mem, used, total) + sysinfo_gauge(cx, cy, cw, pct)
        + Seq::new(blocks as nat, |j: int| sfill(cx + 14 + 8 * j, cy + 144, 6, 10, palette::RETRO_SELECTION))
        + sysinfo_footer(cx, cy, cw, ticks, now)
}

/// The face, the system name (bold) and edition, and a groove.
pub open spec fn sysinfo_heading(cx: int, cy: int, cw: int, ch: int) -> Seq<ShapeV> {
    let black = palette::BLACK;
    let x = cx + 12;
    seq![
        sfill(cx, cy, cw, ch, palette::RETRO_FACE),
        stext(x, cy + 10, "System:"@, black),
        stext(x + 1, cy + 10, "System:"@, black),
        stext(x + 70, cy + 10, "Mouros 98"@, black),
        stext(x + 71, cy + 10, "Mouros 98"@, black),
        stext(x + 70, cy + 26, "Second Edition (Bare-Metal)"@, black),
        ShapeV::Groove { x, y: cy + 40, w: if cw >= 24 { cw - 24 } else { 0 }, h: 2 }
    ]
}

/// The computer heading (bold) and the processor, display, memory, heap
/// and clock lines.
pub open spec fn sysinfo_facts(cx: int, cy: int, mem: SystemMemoryInfo, used: usize, total: usize) -> Seq<ShapeV> {
    let black = palette::BLACK;
    let navy = pack_argb(255, 0, 0, 128);
    let x = cx + 12;
    seq![
        stext(x, cy + 48, "Computer:"@, black),
        stext(x + 1, cy + 48, "Computer:"@, black),
        stext(x + 10, cy + 64, "Processor:"@, black),
        stext(x + 106, cy + 64, "Genuine x86_64 CPU (Long Mode)"@, navy),
        stext(x + 10, cy + 75, "Display:"@, black),
        stext(x + 106, cy + 75, "Bochs VBE / BGA 800x600 32bpp"@, navy),
        stext(x + 10, cy + 86, "Memory:"@, black),
        stext(x + 106, cy + 86, ram_line(mem.total_ram_bytes), navy),
        stext(x + 10, cy + 97, "Kernel Heap:"@, black),
        stext(x + 106, cy + 97, heap_line(used, total), navy),
        stext(x + 10, cy + 108, "System Clock:"@, black),
        stext(x + 106, cy + 108, "100 Hz PIT (10ms tick)"@, navy)
    ]
}

/// A groove, the heap percentage, and the empty sunken gauge.
pub open spec fn sysinfo_gauge(cx: int, cy: int, cw: int, pct: int) -> Seq<ShapeV> {
    let x = cx + 12;
    let div_w = if cw >= 24 { cw - 24 } else { 0 };
    seq![
        ShapeV::Groove { x, y: cy + 123, w: div_w, h: 2 },
        stext(x, cy + 131, "Heap Allocation: "@ + dec(pct) + "%"@, palette::BLACK),
        sfill(x, cy + 142, div_w, 14, palette::WHITE),
        ShapeV::Sunken { x, y: cy + 142, w: div_w, h: 14 }
    ]
}

/// The uptime, and the clock right-aligned beside it when there is room.
pub open spec fn sysinfo_footer(cx: int, cy: int, cw: int, ticks: u64, now: RtcTime) -> Seq<ShapeV> {
    let x = cx + 12;
    let up = "Uptime: "@ + dec(ticks as int / 100) + "s"@;
    let up_w = if up.len() <= 0x1000 { up.len() as int } else { 0x1000 };
    let clock = clip_to(clock_line(now), 64);
    let rtc_x = cx + cw - 12 - clock.len() * 8;
    seq![stext(x, cy + 166, up, palette::BLACK)]
        + if rtc_x > x + up_w * 8 + 10 { seq![stext(rtc_x, cy + 166, clock, palette::BLACK)] } else { Seq::empty() }
}

impl SysInfoApp {
    /// The window.
    pub fn new() -> (app: SysInfoApp) {
        SysInfoApp
    }

    /// The window title.
    pub fn title(&self) -> (t: &'static str)
        ensures
            t@ == "System Information"@,
    {
        "System Information"
    }

    /// The RAM line for `total_ram_bytes` bytes.
    pub fn ram_text(total_ram_bytes: u64) -> (s: Vec<char>)
        ensures
            s@ == ram_line(total_ram_bytes),
    {
        let q = total_ram_bytes / 1048576;
        let mb = if q > 1 { q } else { 1 };
        let mut s = format_u64(mb);
        if mb >= 1024 {
            append_str(&mut s, " MB (");
            append_chars(&mut s, format_u64(mb / 1024).as_slice());
            append_str(&mut s, ".");
            append_chars(&mut s, format_u64(((mb % 1024) * 10) / 1024).as_slice());
            append_str(&mut s, " GB) of RAM");
        } else {
            append_str(&mut s, " MB Physical RAM");
        }
        s
    }

    /// The heap line for `used` of `total` bytes.
    pub fn heap_text(used: usize, total: usize) -> (s: Vec<char>)
        ensures
            s@ == heap_line(used, total),
    {
        let mut s = format_u64((used / 1048576) as u64);
        append_str(&mut s, ".");
        append_chars(&mut s, format_u64((((used % 1048576) * 10) / 1048576) as u64).as_slice());
        append_str(&mut s, " / ");
        append_chars(&mut s, format_u64((total / 1048576) as u64).as_slice());
        append_str(&mut s, " MB");
        s
    }

    /// The heap gauge's percentage for `used` of `total` bytes.
    pub fn heap_percent(used: usize, total: usize) -> (p: usize)
        ensures
            p == heap_percent_of(used, total),
    {
        let total_mb = total / 1048576;
        if total_mb > 0 {
            let used_mb = used / 1048576;
            assert(used_mb * 100 <= usize::MAX) by (nonlinear_arith)
                requires used_mb == used / 1048576, used <= usize::MAX;
            let p = (used_mb * 100) / total_mb;
            if p < 5 { 5 } else if p > 100 { 100 } else { p }
        } else {
            10
        }
    }

    /// The uptime line after `ticks` timer ticks (100 a second).
    pub fn uptime_text(ticks: u64) -> (s: Vec<char>)
        ensures
            s@ == "Uptime: "@ + dec(ticks as int / 100) + "s"@,
    {
        let mut s = chars_of("Uptime: ");
        append_chars(&mut s, format_u64(ticks / 100).as_slice());
        append_str(&mut s, "s");
        s
    }

    /// The clock line for `t`.
    pub fn clock_text(t: RtcTime) -> (s: Vec<char>)
        ensures
            s@ == clock_line(t),
    {
        let mut s = format_padded(t.hours as u64, 2);
        append_str(&mut s, ":");
        append_chars(&mut s, format_padded(t.minutes as u64, 2).as_slice());
        append_str(&mut s, ":");
        append_chars(&mut s, format_padded(t.seconds as u64, 2).as_slice());
        append_str(&mut s, " ");
        append_chars(&mut s, format_padded(t.year as u64, 4).as_slice());
        append_str(&mut s, "-");
        append_chars(&mut s, format_padded(t.month as u64, 2).as_slice());
        append_str(&mut s, "-");
        append_chars(&mut s, format_padded(t.day as u64, 2).as_slice());
        s
    }

    /// The number of 8-pixel blocks the gauge of inner width `bar_width`
    /// shows at `percent` percent.
    pub fn gauge_blocks(bar_width: usize, percent: usize) -> (n: usize)
        requires
            percent <= 100,
            bar_width <= usize::MAX / 100,
        ensures
            n == ((if bar_width >= 4 { bar_width - 4 } else { 0 }) * percent / 100) / 8,
    {
        let inner = if bar_width >= 4 { bar_width - 4 } else { 0 };
        assert(inner * percent <= usize::MAX) by (nonlinear_arith)
            requires inner <= usize::MAX / 100, percent <= 100;
        let fill = (inner * percent) / 100;
        fill / 8
    }
}

impl SysInfoApp {
    /// Adds the face, the system name and edition, and a groove.
    fn add_heading(s: &mut Vec<Shape>, cx: isize, cy: isize, cw: usize, ch: usize)
        requires
            inner(cx as int),
            inner(cy as int),
            cw <= 0x1_0000,
            ch <= 0x1_0000,
            scene_ok(shapes_view(old(s)@)),
        ensures
            shapes_view(final(s)@) == shapes_view(old(s)@) + sysinfo_heading(cx as int, cy as int, cw as int, ch as int),
            scene_ok(shapes_view(final(s)@)),
    {
        let ghost s0 = shapes_view(s@);
        let black = palette::BLACK;
        let x = cx + 12;
        add_fill(s, cx, cy, cw, ch, palette::RETRO_FACE);
        add_label(s, x, cy + 10, "System:", black);
        add_label(s, x + 1, cy + 10, "System:", black);
        add_label(s, x + 70, cy + 10, "Mouros 98", black);
        add_label(s, x + 71, cy + 10, "Mouros 98", black);
        add_label(s, x + 70, cy + 26, "Second Edition (Bare-Metal)", black);
        let div_w = if cw >= 24 { cw - 24 } else { 0 };
        add_shape(s, Shape::Groove { x, y: cy + 40, w: div_w, h: 2 });
        assert(shapes_view(s@) =~= s0 + sysinfo_heading(cx as int, cy as int, cw as int, ch as int));
    }

    /// Adds the computer heading and the five fact lines.
    fn add_facts(s: &mut Vec<Shape>, cx: isize, cy: isize, mem: SystemMemoryInfo, heap_used: usize, heap_total: usize)
        requires
            inner(cx as int),
            inner(cy as int),
            scene_ok(shapes_view(old(s)@)),
        ensures
            shapes_view(final(s)@) == shapes_view(old(s)@) + sysinfo_facts(cx as int, cy as int, mem, heap_used, heap_total),
            scene_ok(shapes_view(final(s)@)),
    {
        let ghost s0 = shapes_view(s@);
        let black = palette::BLACK;
        let navy = Color::from_rgb(0, 0, 128).raw;
        let x = cx + 12;
        add_label(s, x, cy + 48, "Computer:", black);
        add_label(s, x + 1, cy + 48, "Computer:", black);
        add_label(s, x + 10, cy + 64, "Processor:", black);
        add_label(s, x + 106, cy + 64, "Genuine x86_64 CPU (Long Mode)", navy);
        add_label(s, x + 10, cy + 75, "Display:", black);
        add_label(s, x + 106, cy + 75, "Bochs VBE / BGA 800x600 32bpp", navy);
        add_label(s, x + 10, cy + 86, "Memory:", black);
        add_text(s, x + 106, cy + 86, Self::ram_text(mem.total_ram_bytes), navy);
        add_label(s, x + 10, cy + 97, "Kernel Heap:", black);
        add_text(s, x + 106, cy + 97, Self::heap_text(heap_used, heap_total), navy);
        add_label(s, x + 10, cy + 108, "System Clock:", black);
        add_label(s, x + 106, cy + 108, "100 Hz PIT (10ms tick)", navy);
        assert(shapes_view(s@) =~= s0 + sysinfo_facts(cx as int, cy as int, mem, heap_used, heap_total));
    }

    /// Adds a groove, the heap percentage and the empty gauge.
    fn add_gauge(s: &mut Vec<Shape>, cx: isize, cy: isize, cw: usize, pct: usize)
        requires
            inner(cx as int),
            inner(cy as int),
            cw <= 0x1_0000,
            scene_ok(shapes_view(old(s)@)),
        ensures
            shapes_view(final(s)@) == shapes_view(old(s)@) + sysinfo_gauge(cx as int, cy as int, cw as int, pct as int),
            scene_ok(shapes_view(final(s)@)),
    {
        let ghost s0 = shapes_view(s@);
        let x = cx + 12;
        let div_w = if cw >= 24 { cw - 24 } else { 0 };
        add_shape(s, Shape::Groove { x, y: cy + 123, w: div_w, h: 2 });
        let mut mem_label = chars_of("Heap Allocation: ");
        append_chars(&mut mem_label, format_u64(pct as u64).as_slice());
        append_str(&mut mem_label, "%");
        add_text(s, x, cy + 131, mem_label, palette::BLACK);
        add_fill(s, x, cy + 142, div_w, 14, palette::WHITE);
        add_shape(s, Shape::Sunken { x, y: cy + 142, w: div_w, h: 14 });
        assert(shapes_view(s@) =~= s0 + sysinfo_gauge(cx as int, cy as int, cw as int, pct as int));
    }

    /// Adds the uptime and, when there is room, the clock.
    fn add_footer(s: &mut Vec<Shape>, cx: isize, cy: isize, cw: usize, ticks: u64, now: RtcTime)
        requires
            inner(cx as int),
            inner(cy as int),
            cw <= 0x1_0000,
            scene_ok(shapes_view(old(s)@)),
        ensures
            shapes_view(final(s)@) == shapes_view(old(s)@) + sysinfo_footer(cx as int, cy as int, cw as int, ticks, now),
            scene_ok(shapes_view(final(s)@)),
    {
        let ghost s0 = shapes_view(s@);
        let x = cx + 12;
        let up = Self::uptime_text(ticks);
        let up_w = if up.len() <= 0x1000 { up.len() } else { 0x1000 };
        add_text(s, x, cy + 166, up, palette::BLACK);
        let clock = Self::clock_text(now);
        let clock = clipped(clock.as_slice(), 64);
        let rtc_x = cx + cw as isize - 12 - (clock.len() * 8) as isize;
        if rtc_x > x + (up_w * 8) as isize + 10 {
            add_text(s, rtc_x, cy + 166, clock, palette::BLACK);
        }
        assert(shapes_view(s@) =~= s0 + sysinfo_footer(cx as int, cy as int, cw as int, ticks, now));
    }

    /// The window's contents in the client area at `(cx, cy)`, `cw` by
    /// `ch` (see `sysinfo_scene`).
    pub fn scene(cx: isize, cy: isize, cw: usize, ch: usize,
        mem: SystemMemoryInfo, heap_used: usize, heap_total: usize, ticks: u64, now: RtcTime) -> (s: Vec<Shape>)
        requires
            inner(cx as int),
            inner(cy as int),
            cw <= 0x1_0000,
            ch <= 0x1_0000,
        ensures
            shapes_view(s@) == sysinfo_scene(cx as int, cy as int, cw as int, ch as int, mem, heap_used, heap_total, ticks, now),
            scene_ok(shapes_view(s@)),
    {
        let mut s: Vec<Shape> = Vec::new();
        assert(shapes_view(s@) =~= Seq::<ShapeV>::empty());
        Self::add_heading(&mut s, cx, cy, cw, ch);
        Self::add_facts(&mut s, cx, cy, mem, heap_used, heap_total);
        let pct = Self::heap_percent(heap_used, heap_total);
        Self::add_gauge(&mut s, cx, cy, cw, pct);
        let div_w = if cw >= 24 { cw - 24 } else { 0 };
        let blocks = Self::gauge_blocks(div_w, pct);
        let ghost iw: int = if div_w >= 4 { div_w - 4 } else { 0 };
        assert(blocks <= 0x2000) by (nonlinear_arith)
            requires blocks == (iw * pct / 100) / 8, 0 <= iw <= 0x1_0000, pct <= 100;
        let ghost head = shapes_view(s@);
        let x = cx + 12;
        let mut k: usize = 0;
        while k < blocks
            invariant
                inner(cx as int),
                inner(cy as int),
                x == cx + 12,
                blocks <= 0x2000,
                k <= blocks,
                shapes_view(s@) == head + Seq::new(k as nat, |j: int| sfill(cx + 14 + 8 * j, cy + 144, 6, 10, palette::RETRO_SELECTION)),
                scene_ok(shapes_view(s@)),
            decreases blocks - k,
        {
            add_fill(&mut s, x + 2 + (k * 8) as isize, cy + 144, 6, 10, palette::RETRO_SELECTION);
            k = k + 1;
            assert(shapes_view(s@) =~= head + Seq::new(k as nat, |j: int| sfill(cx + 14 + 8 * j, cy + 144, 6, 10, palette::RETRO_SELECTION)));
        }
        Self::add_footer(&mut s, cx, cy, cw, ticks, now);
        assert(shapes_view(s@) =~= sysinfo_scene(cx as int, cy as int, cw as int, ch as int, mem, heap_used, heap_total, ticks, now));
        s
    }

    /// Draws the window into the client area at `(cx, cy)`, `cw` by `ch`:
    /// exactly the pixels of `sysinfo_scene` for the machine facts given
    /// (the memory totals `mem`, the heap's `heap_used` of `heap_total`
    /// bytes, `ticks` timer ticks since boot and the time `now`).
    pub fn render(&self, fb: &mut Framebuffer, cx: isize, cy: isize, cw: usize, ch: usize,
        mem: SystemMemoryInfo, heap_used: usize, heap_total: usize, ticks: u64, now: RtcTime)
        requires
            old(fb).wf(),
            inner(cx as int),
            inner(cy as int),
            cw <= 0x1_0000,
            ch <= 0x1_0000,
        ensures
            drawn_over(*old(fb), *final(fb)),
            final(fb).backbuffer@ == painted(*old(fb), old(fb).backbuffer@,
                sysinfo_scene(cx as int, cy as int, cw as int, ch as int, mem, heap_used, heap_total, ticks, now)),
    {
        let s = Self::scene(cx, cy, cw, ch, mem, heap_used, heap_total, ticks, now);
        paint(fb, s.as_slice());
    }
}

} // verus!
