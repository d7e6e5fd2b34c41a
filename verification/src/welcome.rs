//! The boot splash: a diagnostics card and a loading bar that fills with
//! the timer (three percent a tick) until it is full or the user presses a
//! key or a mouse button.
use vstd::prelude::*;
use crate::chars::{append_chars, append_str, chars_of, format_spaced, space_pad};
use crate::color::Color;
use crate::framebuffer::Framebuffer;
use crate::mouse::MouseEvent;
use crate::palette;
use crate::color::pack_argb;
use crate::render::drawn_over;
use crate::scene::{
    add_big, add_fill, add_label, add_shape, add_text, half, half_of, paint, painted, scene_ok, sfill, shapes_view,
    stext, Shape, ShapeV,
};
use crate::text::{decimal_digits, format_u64};
use crate::window::small;

verus! {

/// The loading bar's value when the splash is over.
pub const WELCOME_DONE: usize = 100;

/// Whether a keyboard scancode skips the splash: a key going down, other
/// than the controller's zero byte.
pub fn is_skip_scancode(sc: u8) -> (b: bool)
    ensures
        b == (sc < 0x80 && sc != 0),
{
    sc < 0x80 && sc != 0
}

/// Whether a mouse report skips the splash: either button is down.
pub fn is_skip_click(ev: MouseEvent) -> (b: bool)
    ensures
        b == (ev.left_pressed || ev.right_pressed),
{
    ev.left_pressed || ev.right_pressed
}

/// The loading bar after `elapsed` more timer ticks: three percent a tick,
/// full at 100.
pub open spec fn advanced(progress: int, elapsed: int) -> int {
    if progress + 3 * elapsed < 100 { progress + 3 * elapsed } else { 100 }
}

/// One step of the splash's clock: when the timer moved from `last_tick`
/// to `current_tick`, the bar advances by the ticks in between (none when
/// the timer went back) and the new tick is remembered; otherwise nothing
/// changes.
pub fn advance_progress(progress: usize, last_tick: u64, current_tick: u64) -> (r: (usize, u64))
    ensures
        current_tick == last_tick ==> r == (progress, last_tick),
        current_tick != last_tick ==> {
            &&& r.1 == current_tick
            &&& r.0 == advanced(progress as int,
                if current_tick > last_tick { current_tick - last_tick } else { 0 })
        },
{
    if current_tick == last_tick {
        return (progress, last_tick);
    }
    let elapsed: u64 = if current_tick > last_tick { current_tick - last_tick } else { 0 };
    let next: usize = if elapsed >= 100 {
        WELCOME_DONE
    } else {
        let sum = progress.saturating_add(3 * elapsed as usize);
        if sum < WELCOME_DONE { sum } else { WELCOME_DONE }
    };
    (next, current_tick)
}

/// The installed memory as the splash shows it: `N MiB`, and from one
/// gibibyte on also the gibibytes with one (truncated) decimal.
pub open spec fn ram_text_spec(mb: nat) -> Seq<char> {
    if mb >= 1024 {
        decimal_digits(mb) + " MiB ("@ + decimal_digits(mb / 1024) + "."@
            + decimal_digits(((mb % 1024) * 10) / 1024) + " GiB)"@
    } else {
        decimal_digits(mb) + " MiB"@
    }
}

/// Renders `total_ram_mb` as `ram_text_spec` says.
pub fn ram_text(total_ram_mb: u64) -> (v: Vec<char>)
    ensures
        v@ == ram_text_spec(total_ram_mb as nat),
{
    let mut v = format_u64(total_ram_mb);
    if total_ram_mb >= 1024 {
        append_str(&mut v, " MiB (");
        append_chars(&mut v, format_u64(total_ram_mb / 1024).as_slice());
        append_str(&mut v, ".");
        append_chars(&mut v, format_u64(((total_ram_mb % 1024) * 10) / 1024).as_slice());
        append_str(&mut v, " GiB)");
    } else {
        append_str(&mut v, " MiB");
    }
    v
}

/// The percentage beside the bar: the value right-aligned in three cells,
/// then `%`.
pub fn percent_text(progress: usize) -> (v: Vec<char>)
    ensures
        v@ == space_pad(decimal_digits(progress as nat), 3) + "%"@,
{
    let mut v = format_spaced(progress as u64, 3);
    append_str(&mut v, "%");
    v
}

/// The line under the card telling what the boot is doing at `progress`.
pub open spec fn status_spec(progress: int) -> Seq<char> {
    if progress < 25 {
        "Initializing kernel paging and memory structures..."@
    } else if progress < 50 {
        "Configuring Bochs BGA linear framebuffer & backbuffer..."@
    } else if progress < 75 {
        "Starting lock-free mouse and keyboard event queues..."@
    } else if progress < 95 {
        "Compositing desktop wallpaper, windows, and applications..."@
    } else {
        "Mouros Desktop Environment Ready! Starting OS..."@
    }
}

/// The status line for `progress`, as `status_spec` says.
pub fn welcome_status(progress: usize) -> (s: &'static str)
    ensures
        s@ == status_spec(progress as int),
        s@ == if progress < 25 {
            "Initializing kernel paging and memory structures..."@
        } else if progress < 50 {
            "Configuring Bochs BGA linear framebuffer & backbuffer..."@
        } else if progress < 75 {
            "Starting lock-free mouse and keyboard event queues..."@
        } else if progress < 95 {
            "Compositing desktop wallpaper, windows, and applications..."@
        } else {
            "Mouros Desktop Environment Ready! Starting OS..."@
        },
{
    if progress < 25 {
        "Initializing kernel paging and memory structures..."
    } else if progress < 50 {
        "Configuring Bochs BGA linear framebuffer & backbuffer..."
    } else if progress < 75 {
        "Starting lock-free mouse and keyboard event queues..."
    } else if progress < 95 {
        "Compositing desktop wallpaper, windows, and applications..."
    } else {
        "Mouros Desktop Environment Ready! Starting OS..."
    }
}

/// The value of the card's memory line: the installed memory and the
/// kernel heap.
pub fn ram_line(ram: &[char], heap_mb: u64) -> (v: Vec<char>)
    ensures
        v@ == ram@ + " [Kernel Heap: "@ + decimal_digits(heap_mb as nat) + " MB]"@,
{
    let mut v: Vec<char> = Vec::new();
    append_chars(&mut v, ram);
    append_str(&mut v, " [Kernel Heap: ");
    append_chars(&mut v, format_u64(heap_mb).as_slice());
    append_str(&mut v, " MB]");
    v
}

/// The width in pixels that centring allows for `n` characters.
pub open spec fn text_w(n: int) -> int {
    if n < 0x10_0000 { 8 * n } else { 0x800_0000 }
}

/// `t` centred on a `width`-pixel screen at row `y`, with a black shadow
/// one pixel down and right.
pub open spec fn shadowed(width: int, y: int, t: Seq<char>, color: u32) -> Seq<ShapeV> {
    let x = half(width - text_w(t.len() as int));
    seq![stext(x + 1, y + 1, t, palette::BLACK), stext(x, y, t, color)]
}

/// The title letters `0..k`, each four times magnified, 32 pixels apart
/// from `tx`, each over its dark teal shadow two pixels down and right.
pub open spec fn title_shapes(tx: int, k: int) -> Seq<ShapeV>
    decreases k,
{
    if k <= 0 {
        Seq::empty()
    } else {
        let c = "MOUROS 98"@[k - 1];
        let cx = tx + 32 * (k - 1);
        title_shapes(tx, k - 1) + seq![
            ShapeV::Big { x: cx + 2, y: 38, text: seq![c], scale: 4, color: pack_argb(255, 0, 96, 96) },
            ShapeV::Big { x: cx, y: 36, text: seq![c], scale: 4, color: palette::WHITE }
        ]
    }
}

/// What the card's line `k` says the item is.
pub open spec fn card_value(k: int, mem: Seq<char>) -> Seq<char> {
    if k == 0 {
        "Mouros In-Tree MBR / Stage 2 / Stage 3 / Stage 4"@
    } else if k == 1 {
        "x86_64 Long Mode (Paging Active, SSE2 Enabled)"@
    } else if k == 2 {
        mem
    } else if k == 3 {
        "Bochs BGA 800x600 32bpp True Color Linear FB"@
    } else if k == 4 {
        "Lock-Free PS/2 Mouse & Keyboard (IRQ 1 & 12)"@
    } else {
        "CMOS Hardware RTC & 8254 PIT Timer Active"@
    }
}

/// The name of the card's line `k`.
pub open spec fn card_name(k: int) -> Seq<char> {
    if k == 0 {
        "Bootloader"@
    } else if k == 1 {
        "Processor"@
    } else if k == 2 {
        "Physical RAM"@
    } else if k == 3 {
        "Video Device"@
    } else if k == 4 {
        "Input Driver"@
    } else {
        "Real-Time"@
    }
}

/// The card's lines `0..k`, 24 pixels apart: a green `[ OK ]`, the name,
/// a colon and the value in navy.
pub open spec fn card_lines(cx: int, mem: Seq<char>, k: int) -> Seq<ShapeV>
    decreases k,
{
    if k <= 0 {
        Seq::empty()
    } else {
        let iy = 114 + 34 + 24 * (k - 1);
        card_lines(cx, mem, k - 1) + seq![
            stext(cx + 16, iy, "[ OK ]"@, pack_argb(255, 0, 128, 0)),
            stext(cx + 72, iy, card_name(k - 1), palette::BLACK),
            stext(cx + 172, iy, ":"@, palette::BLACK),
            stext(cx + 184, iy, card_value(k - 1, mem), pack_argb(255, 0, 0, 128))
        ]
    }
}

/// The first `n` navy blocks of the loading bar at `bx`, ten pixels apart.
pub open spec fn bar_blocks(bx: int, n: int) -> Seq<ShapeV>
    decreases n,
{
    if n <= 0 {
        Seq::empty()
    } else {
        bar_blocks(bx, n - 1).push(sfill(bx + 3 + 10 * (n - 1), 371, 8, 12, palette::RETRO_SELECTION))
    }
}

/// The diagnostics card centred on a `width`-pixel screen: its face, raised
/// border, title bar and title, and the six lines.
pub open spec fn card_scene(width: int, mem: Seq<char>) -> Seq<ShapeV> {
    let cx = half(width - 580);
    seq![
        sfill(cx, 114, 580, 200, palette::RETRO_FACE),
        ShapeV::Raised { x: cx, y: 114, w: 580, h: 200 },
        ShapeV::GradientH { x: cx + 3, y: 117, w: 574, h: 20,
            left: palette::RETRO_ACTIVE_TITLE_LEFT, right: palette::RETRO_ACTIVE_TITLE_RIGHT },
        stext(cx + 10, 116, "System & Hardware Initialization"@, palette::WHITE)
    ] + card_lines(cx, mem, 6)
}

/// The loading bar at `progress` percent: its white sunken trough, one
/// block for each ten pixels of the 454 filled, and the percentage.
pub open spec fn bar_scene(width: int, progress: int) -> Seq<ShapeV> {
    let bx = half(width - 460);
    seq![sfill(bx, 368, 460, 18, palette::WHITE), ShapeV::Sunken { x: bx, y: 368, w: 460, h: 18 }]
        + bar_blocks(bx, (454 * progress / 100) / 10)
        + seq![stext(bx + 472, 372, space_pad(decimal_digits(progress as nat), 3) + "%"@, palette::WHITE)]
}

/// One frame of the splash on a `width`-pixel screen: the teal screen, the
/// title and subtitle, the card, the status line for `progress`, the bar,
/// the two hints and the pointer at `(mx, my)`.
pub open spec fn welcome_scene(width: int, progress: int, ram: Seq<char>, heap_mb: nat, mx: int, my: int) -> Seq<ShapeV> {
    let mem = ram + " [Kernel Heap: "@ + decimal_digits(heap_mb) + " MB]"@;
    seq![ShapeV::Clear { color: palette::RETRO_TEAL }]
        + title_shapes(half(width - 288), 9)
        + shadowed(width, 84, "Bare-Metal 64-Bit Operating System (Second Edition)"@, palette::WHITE)
        + card_scene(width, mem)
        + shadowed(width, 344, status_spec(progress), palette::WHITE)
        + bar_scene(width, progress)
        + shadowed(width, 420, "Press [ENTER], [SPACE], or CLICK anywhere to launch Desktop"@, palette::WHITE)
        + shadowed(width, 440, "Or wait for automatic system initialization..."@, pack_argb(255, 180, 220, 220))
        + seq![ShapeV::Pointer { x: mx, y: my }]
}

/// Adds `shadowed(width, y, text@, color)`.
fn add_shadowed(s: &mut Vec<Shape>, width: usize, y: isize, text: &str, color: u32)
    requires
        width <= 0x1_0000,
        0 <= y <= 0x1_0000,
        scene_ok(shapes_view(old(s)@)),
    ensures
        shapes_view(final(s)@) == shapes_view(old(s)@) + shadowed(width as int, y as int, text@, color),
        scene_ok(shapes_view(final(s)@)),
{
    let ghost before = shapes_view(s@);
    let t = chars_of(text);
    let tw: usize = if t.len() < 0x10_0000 { t.len() * 8 } else { 0x800_0000 };
    let x = half_of(width as isize - tw as isize);
    add_label(s, x + 1, y + 1, text, palette::BLACK);
    add_label(s, x, y, text, color);
    assert(shapes_view(s@) =~= before + shadowed(width as int, y as int, text@, color));
}

/// Adds `title_shapes(half(width - 288), 9)`.
fn add_title(s: &mut Vec<Shape>, width: usize)
    requires
        width <= 0x1_0000,
        scene_ok(shapes_view(old(s)@)),
    ensures
        shapes_view(final(s)@) == shapes_view(old(s)@) + title_shapes(half(width - 288), 9),
        scene_ok(shapes_view(final(s)@)),
{
    let ghost before = shapes_view(s@);
    let title = "MOUROS 98";
    let tc = chars_of(title);
    proof {
        reveal_strlit("MOUROS 98");
    }
    let title_x = half_of(width as isize - 288);
    let shade = Color::from_rgb(0, 96, 96).raw;
    let mut i: usize = 0;
    while i < 9
        invariant
            tc@ == "MOUROS 98"@,
            tc@.len() == 9,
            shade == pack_argb(255, 0, 96, 96),
            title_x == half(width - 288),
            width <= 0x1_0000,
            i <= 9,
            shapes_view(s@) == before + title_shapes(title_x as int, i as int),
            scene_ok(shapes_view(s@)),
        decreases 9 - i,
    {
        let cx = title_x + (i * 32) as isize;
        let mut a: Vec<char> = Vec::new();
        a.push(tc[i]);
        let mut b: Vec<char> = Vec::new();
        b.push(tc[i]);
        add_big(s, cx + 2, 38, a, 4, shade);
        add_big(s, cx, 36, b, 4, palette::WHITE);
        i = i + 1;
        assert(shapes_view(s@) =~= before + title_shapes(title_x as int, i as int));
    }
}

/// Adds `card_scene(width, mem@)`.
fn add_card(s: &mut Vec<Shape>, width: usize, mem: &[char])
    requires
        width <= 0x1_0000,
        scene_ok(shapes_view(old(s)@)),
    ensures
        shapes_view(final(s)@) == shapes_view(old(s)@) + card_scene(width as int, mem@),
        scene_ok(shapes_view(final(s)@)),
{
    let ghost before = shapes_view(s@);
    let card_x = half_of(width as isize - 580);
    add_fill(s, card_x, 114, 580, 200, palette::RETRO_FACE);
    add_shape(s, Shape::Raised { x: card_x, y: 114, w: 580, h: 200 });
    add_shape(s, Shape::GradientH { x: card_x + 3, y: 117, w: 574, h: 20,
        left: palette::RETRO_ACTIVE_TITLE_LEFT, right: palette::RETRO_ACTIVE_TITLE_RIGHT });
    add_label(s, card_x + 10, 116, "System & Hardware Initialization", palette::WHITE);
    let ghost head = shapes_view(s@);
    let green = Color::from_rgb(0, 128, 0).raw;
    let navy = Color::from_rgb(0, 0, 128).raw;
    let mut k: usize = 0;
    while k < 6
        invariant
            -0x1_0000 <= card_x <= 0x1_0000,
            card_x == half(width - 580),
            green == pack_argb(255, 0, 128, 0),
            navy == pack_argb(255, 0, 0, 128),
            k <= 6,
            shapes_view(s@) == head + card_lines(card_x as int, mem@, k as int),
            scene_ok(shapes_view(s@)),
        decreases 6 - k,
    {
        let item_y: isize = 148 + (k * 24) as isize;
        add_line(s, card_x, item_y, k, mem, green, navy);
        k = k + 1;
        assert(shapes_view(s@) =~= head + card_lines(card_x as int, mem@, k as int));
    }
    assert(shapes_view(s@) =~= before + card_scene(width as int, mem@));
}

/// Adds the four texts of the card's line `k` at row `item_y`.
fn add_line(s: &mut Vec<Shape>, card_x: isize, item_y: isize, k: usize, mem: &[char], green: u32, navy: u32)
    requires
        -0x1_0000 <= card_x <= 0x1_0000,
        0 <= item_y <= 0x1000,
        k < 6,
        scene_ok(shapes_view(old(s)@)),
    ensures
        shapes_view(final(s)@) == shapes_view(old(s)@) + seq![
            stext(card_x + 16, item_y as int, "[ OK ]"@, green),
            stext(card_x + 72, item_y as int, card_name(k as int), palette::BLACK),
            stext(card_x + 172, item_y as int, ":"@, palette::BLACK),
            stext(card_x + 184, item_y as int, card_value(k as int, mem@), navy)
        ],
        scene_ok(shapes_view(final(s)@)),
{
    let ghost before = shapes_view(s@);
    add_label(s, card_x + 16, item_y, "[ OK ]", green);
    let name = if k == 0 {
        "Bootloader"
    } else if k == 1 {
        "Processor"
    } else if k == 2 {
        "Physical RAM"
    } else if k == 3 {
        "Video Device"
    } else if k == 4 {
        "Input Driver"
    } else {
        "Real-Time"
    };
    add_label(s, card_x + 72, item_y, name, palette::BLACK);
    add_label(s, card_x + 172, item_y, ":", palette::BLACK);
    if k == 0 {
        add_label(s, card_x + 184, item_y, "Mouros In-Tree MBR / Stage 2 / Stage 3 / Stage 4", navy);
    } else if k == 1 {
        add_label(s, card_x + 184, item_y, "x86_64 Long Mode (Paging Active, SSE2 Enabled)", navy);
    } else if k == 2 {
        add_text(s, card_x + 184, item_y, slice_to_vec(mem), navy);
    } else if k == 3 {
        add_label(s, card_x + 184, item_y, "Bochs BGA 800x600 32bpp True Color Linear FB", navy);
    } else if k == 4 {
        add_label(s, card_x + 184, item_y, "Lock-Free PS/2 Mouse & Keyboard (IRQ 1 & 12)", navy);
    } else {
        add_label(s, card_x + 184, item_y, "CMOS Hardware RTC & 8254 PIT Timer Active", navy);
    }
    assert(shapes_view(s@) =~= before + seq![
        stext(card_x + 16, item_y as int, "[ OK ]"@, green),
        stext(card_x + 72, item_y as int, card_name(k as int), palette::BLACK),
        stext(card_x + 172, item_y as int, ":"@, palette::BLACK),
        stext(card_x + 184, item_y as int, card_value(k as int, mem@), navy)
    ]);
}

/// A copy of `v`.
fn slice_to_vec(v: &[char]) -> (r: Vec<char>)
    ensures
        r@ == v@,
{
    let mut r: Vec<char> = Vec::new();
    append_chars(&mut r, v);
    assert(r@ =~= v@);
    r
}

/// Adds `bar_scene(width, progress)`.
fn add_bar(s: &mut Vec<Shape>, width: usize, progress: usize)
    requires
        width <= 0x1_0000,
        progress <= WELCOME_DONE,
        scene_ok(shapes_view(old(s)@)),
    ensures
        shapes_view(final(s)@) == shapes_view(old(s)@) + bar_scene(width as int, progress as int),
        scene_ok(shapes_view(final(s)@)),
{
    let ghost before = shapes_view(s@);
    let bar_x = half_of(width as isize - 460);
    add_fill(s, bar_x, 368, 460, 18, palette::WHITE);
    add_shape(s, Shape::Sunken { x: bar_x, y: 368, w: 460, h: 18 });
    let ghost head = shapes_view(s@);
    let fill_w: usize = (454 * progress) / 100;
    let mut cur_bx: usize = 0;
    let mut j: usize = 0;
    while cur_bx + 10 <= fill_w
        invariant
            -0x1_0000 <= bar_x <= 0x1_0000,
            fill_w <= 454,
            cur_bx == 10 * j,
            cur_bx <= fill_w + 10,
            j <= fill_w / 10,
            shapes_view(s@) == head + bar_blocks(bar_x as int, j as int),
            scene_ok(shapes_view(s@)),
        decreases fill_w + 10 - cur_bx,
    {
        add_fill(s, bar_x + 3 + cur_bx as isize, 371, 8, 12, palette::RETRO_SELECTION);
        cur_bx = cur_bx + 10;
        j = j + 1;
        assert(shapes_view(s@) =~= head + bar_blocks(bar_x as int, j as int));
    }
    assert(j == fill_w / 10);
    let pct = percent_text(progress);
    add_text(s, bar_x + 472, 372, pct, palette::WHITE);
    assert(shapes_view(s@) =~= before + bar_scene(width as int, progress as int));
}

/// Builds `welcome_scene`.
pub fn welcome_frame_scene(width: usize, progress: usize, ram: &[char], heap_mb: u64, mouse_x: isize, mouse_y: isize)
    -> (s: Vec<Shape>)
    requires
        width <= 0x1_0000,
        progress <= WELCOME_DONE,
        small(mouse_x as int),
        small(mouse_y as int),
    ensures
        shapes_view(s@) == welcome_scene(width as int, progress as int, ram@, heap_mb as nat, mouse_x as int, mouse_y as int),
        scene_ok(shapes_view(s@)),
{
    let mut s: Vec<Shape> = Vec::new();
    assert(shapes_view(s@) =~= Seq::<ShapeV>::empty());
    add_shape(&mut s, Shape::Clear { color: palette::RETRO_TEAL });
    add_title(&mut s, width);
    add_shadowed(&mut s, width, 84, "Bare-Metal 64-Bit Operating System (Second Edition)", palette::WHITE);
    let mem = ram_line(ram, heap_mb);
    add_card(&mut s, width, mem.as_slice());
    add_shadowed(&mut s, width, 344, welcome_status(progress), palette::WHITE);
    add_bar(&mut s, width, progress);
    add_shadowed(&mut s, width, 420, "Press [ENTER], [SPACE], or CLICK anywhere to launch Desktop", palette::WHITE);
    add_shadowed(&mut s, width, 440, "Or wait for automatic system initialization...",
        Color::from_rgb(180, 220, 220).raw);
    add_shape(&mut s, Shape::Pointer { x: mouse_x, y: mouse_y });
    assert(shapes_view(s@) =~= welcome_scene(width as int, progress as int, ram@, heap_mb as nat, mouse_x as int,
        mouse_y as int));
    s
}

/// Draws one frame of the splash on a `fb.width`-wide screen with the bar
/// at `progress` percent: exactly the pixels of `welcome_scene` (the teal
/// background, the big title with its shadow and the subtitle; the raised
/// diagnostics card with its title bar and six `[ OK ]` lines, the memory
/// line showing `ram` and `heap_mb`; the status line for `progress`; the
/// sunken bar with one navy block per ten pixels filled and the
/// percentage; the two hints; and the pointer at `(mouse_x, mouse_y)`).
pub fn render_welcome_frame(fb: &mut Framebuffer, progress: usize, ram: &[char], heap_mb: u64,
    mouse_x: isize, mouse_y: isize)
    requires
        old(fb).wf(),
        old(fb).width <= 0x1_0000,
        progress <= WELCOME_DONE,
        small(mouse_x as int),
        small(mouse_y as int),
    ensures
        drawn_over(*old(fb), *final(fb)),
        final(fb).backbuffer@ == painted(*old(fb), old(fb).backbuffer@,
            welcome_scene(old(fb).width as int, progress as int, ram@, heap_mb as nat, mouse_x as int, mouse_y as int)),
{
    let s = welcome_frame_scene(fb.width, progress, ram, heap_mb, mouse_x, mouse_y);
    paint(fb, s.as_slice());
}

} // verus!
