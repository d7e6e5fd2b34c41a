//! The desktop: its stack of windows, the taskbar with its window tabs, the
//! start menu and the desktop shortcuts, window dragging, the background
//! kept under the mouse pointer, and what each timer tick has to do.
use vstd::prelude::*;
use crate::framebuffer::{in_rect, Framebuffer};
use crate::geometry::{lemma_index_split, lemma_pixel_index};
use crate::mouse::MouseEvent;
use crate::rtc::RtcTime;
use crate::theme::{take_pending_theme, wallpaper_pixels, Theme, ThemeKind, ThemeState};
use crate::window::{icon_for_title, icon_from_title, in_box, small, AppKind, Window};
use crate::chars::{chars_of, format_padded, zero_pad};
use crate::text::decimal_digits;
use crate::color::{pack_argb, Color};
use crate::icons::{draw_icon_16, draw_icon_24, icon16_shapes, icon24_shapes, icon_for_id, AppIcon};
use crate::palette;
use crate::render::{
    button, clipped, dot, drawn_over, frame, glyph, gradient_v, groove, label, label_any, rect, shown, sunken_panel,
};
use crate::scene::{clip_to, half, half_of, lemma_paint_seq, lemma_paint_step, lemma_painted_frame_only, painted, sfill, soutline, stext,
    ShapeV,
};

verus! {

/// Height of the taskbar along the bottom of the screen.
pub const TASKBAR_HEIGHT: usize = 28;

/// Side of the square of background kept under the mouse pointer.
pub const CURSOR_BOX: usize = 24;

/// A desktop shortcut: its label, where it sits, and the application it
/// opens (by start-menu number).
#[derive(Debug, Clone, Copy)]
pub struct DesktopIcon {
    pub name: &'static str,
    pub x: isize,
    pub y: isize,
    pub app_id: usize,
}

/// The application with start-menu number `i` (0 to 9).
pub open spec fn kind_of_id(i: int) -> AppKind {
    if i == 0 { AppKind::Terminal } else if i == 1 { AppKind::SysInfo } else if i == 2 { AppKind::Calculator }
    else if i == 3 { AppKind::Notepad } else if i == 4 { AppKind::Snake } else if i == 5 { AppKind::Music }
    else if i == 6 { AppKind::ImageViewer } else if i == 7 { AppKind::Settings } else if i == 8 { AppKind::ElfRunner }
    else { AppKind::Doom }
}

/// Where a window opened from the start menu or a shortcut appears:
/// `(x, y, width, height)`.
pub open spec fn spawn_geometry(kind: AppKind) -> (isize, isize, usize, usize) {
    match kind {
        AppKind::Terminal => (140, 80, 480, 270),
        AppKind::SysInfo => (180, 100, 420, 260),
        AppKind::Calculator => (300, 140, 220, 280),
        AppKind::Notepad => (220, 90, 360, 250),
        AppKind::Snake => (200, 80, 320, 300),
        AppKind::Music => (180, 100, 380, 300),
        AppKind::ImageViewer => (160, 60, 480, 360),
        AppKind::Settings => (200, 120, 380, 280),
        AppKind::ElfRunner => (160, 80, 520, 360),
        AppKind::Doom => (78, 45, 644, 454),
    }
}

/// Shortcut `i` sits in the left column (first five) or the right one, 68
/// pixels apart down the column.
pub open spec fn icon_x(i: int) -> int {
    if i < 5 { 16 } else { 80 }
}

pub open spec fn icon_y(i: int) -> int {
    16 + 68 * (if i < 5 { i } else { i - 5 })
}

/// Whether `(x, y)` is on the 56 by 60 hit box of shortcut `i`.
pub open spec fn on_icon(i: int, x: int, y: int) -> bool {
    in_box(x, y, icon_x(i), icon_y(i), 56, 60)
}

/// The first shortcut from number `i` on whose hit box `(x, y)` lies.
pub open spec fn icon_hit_from(x: int, y: int, i: int) -> Option<int>
    decreases 10 - i,
{
    if i >= 10 || i < 0 {
        None
    } else if on_icon(i, x, y) {
        Some(i)
    } else {
        icon_hit_from(x, y, i + 1)
    }
}

/// The shortcut table.
fn icon_table() -> (t: [DesktopIcon; 10])
    ensures
        forall|i: int| 0 <= i < 10 ==> #[trigger] t@[i].x == icon_x(i) && t@[i].y == icon_y(i) && t@[i].app_id == i,
{
    let t = [
        DesktopIcon { name: "Terminal", x: 16, y: 16, app_id: 0 },
        DesktopIcon { name: "SysInfo", x: 16, y: 84, app_id: 1 },
        DesktopIcon { name: "Calc", x: 16, y: 152, app_id: 2 },
        DesktopIcon { name: "Notepad", x: 16, y: 220, app_id: 3 },
        DesktopIcon { name: "Snake", x: 16, y: 288, app_id: 4 },
        DesktopIcon { name: "Music", x: 80, y: 16, app_id: 5 },
        DesktopIcon { name: "Images", x: 80, y: 84, app_id: 6 },
        DesktopIcon { name: "Settings", x: 80, y: 152, app_id: 7 },
        DesktopIcon { name: "ELF Run", x: 80, y: 220, app_id: 8 },
        DesktopIcon { name: "DOOM", x: 80, y: 288, app_id: 9 },
    ];
    assert forall|i: int| 0 <= i < 10 implies #[trigger] t@[i].x == icon_x(i) && t@[i].y == icon_y(i) && t@[i].app_id == i by {
        if i == 0 {} else if i == 1 {} else if i == 2 {} else if i == 3 {} else if i == 4 {}
        else if i == 5 {} else if i == 6 {} else if i == 7 {} else if i == 8 {} else {}
    }
    t
}

/// `w` with its focus flag cleared.
pub open spec fn unfocus(w: Window) -> Window {
    Window { id: w.id, x: w.x, y: w.y, width: w.width, height: w.height, is_minimized: w.is_minimized, is_focused: false, kind: w.kind }
}

/// Every window of `ws` with its focus flag cleared.
pub open spec fn unfocused(ws: Seq<Window>) -> Seq<Window> {
    Seq::new(ws.len(), |j: int| unfocus(ws[j]))
}

/// `ws` with window `i` brought to the front, shown and focused, and every
/// other window unfocused; `ws` itself where there is no window `i`.
pub open spec fn raised(ws: Seq<Window>, i: int) -> Seq<Window> {
    if 0 <= i < ws.len() {
        let w = ws[i];
        unfocused(ws).remove(i).push(Window {
            id: w.id, x: w.x, y: w.y, width: w.width, height: w.height,
            is_minimized: false, is_focused: true, kind: w.kind,
        })
    } else {
        ws
    }
}

/// `w` minimized and without focus.
pub open spec fn minimized(w: Window) -> Window {
    Window { id: w.id, x: w.x, y: w.y, width: w.width, height: w.height, is_minimized: true, is_focused: false, kind: w.kind }
}

/// The window stack is sound: positions and sizes are small, ids are
/// distinct and below the next id to hand out, and only the front window
/// can have the focus, which a minimized window never has.
pub open spec fn windows_ok(ws: Seq<Window>, next_id: usize) -> bool {
    &&& forall|i: int| 0 <= i < ws.len() ==> (#[trigger] ws[i]).wf()
    &&& forall|i: int| 0 <= i < ws.len() ==> (#[trigger] ws[i]).id < next_id
    &&& forall|i: int, j: int| 0 <= i < ws.len() && 0 <= j < ws.len() && i != j ==> (#[trigger] ws[i]).id != (#[trigger] ws[j]).id
    &&& forall|i: int| 0 <= i < ws.len() && (#[trigger] ws[i]).is_focused ==> i == ws.len() - 1 && !ws[i].is_minimized
}

/// Opening a window keeps the stack sound.
pub proof fn lemma_spawn_keeps_stack(ws: Seq<Window>, next_id: usize, w: Window)
    requires
        windows_ok(ws, next_id),
        next_id < usize::MAX,
        w.wf(),
        w.id == next_id,
        w.is_focused,
        !w.is_minimized,
    ensures
        windows_ok(unfocused(ws).push(w), (next_id + 1) as usize),
{
    let ws2 = unfocused(ws).push(w);
    assert forall|i: int, j: int| 0 <= i < ws2.len() && 0 <= j < ws2.len() && i != j implies
        (#[trigger] ws2[i]).id != (#[trigger] ws2[j]).id by {
        if i < ws.len() && j < ws.len() {
            assert(ws2[i].id == ws[i].id && ws2[j].id == ws[j].id);
        } else if i < ws.len() {
            assert(ws2[i].id == ws[i].id);
        } else {
            assert(ws2[j].id == ws[j].id);
        }
    }
    assert forall|i: int| 0 <= i < ws2.len() implies (#[trigger] ws2[i]).wf() && ws2[i].id < next_id + 1 by {
        if i < ws.len() {
            assert(ws2[i] == unfocus(ws[i]));
        }
    }
    assert forall|i: int| 0 <= i < ws2.len() && (#[trigger] ws2[i]).is_focused implies i == ws2.len() - 1 && !ws2[i].is_minimized by {
        if i < ws.len() {
            assert(ws2[i] == unfocus(ws[i]));
        }
    }
}

/// Bringing a window to the front keeps the stack sound.
pub proof fn lemma_raise_keeps_stack(ws: Seq<Window>, next_id: usize, k: int)
    requires
        windows_ok(ws, next_id),
    ensures
        windows_ok(raised(ws, k), next_id),
        raised(ws, k).len() == ws.len(),
{
    if 0 <= k < ws.len() {
        let ws2 = raised(ws, k);
        let n = ws.len();
        assert(ws2.len() == n);
        // Window `j` of the new stack is window `src(j)` of the old one.
        assert forall|j: int| 0 <= j < n implies
            (#[trigger] ws2[j]).id == ws[if j < k { j } else if j < n - 1 { j + 1 } else { k }].id
            && ws2[j].x == ws[if j < k { j } else if j < n - 1 { j + 1 } else { k }].x
            && ws2[j].y == ws[if j < k { j } else if j < n - 1 { j + 1 } else { k }].y
            && ws2[j].width == ws[if j < k { j } else if j < n - 1 { j + 1 } else { k }].width
            && ws2[j].height == ws[if j < k { j } else if j < n - 1 { j + 1 } else { k }].height
            && (j < n - 1 ==> !ws2[j].is_focused)
            && (j == n - 1 ==> !ws2[j].is_minimized) by {
        }
        assert forall|i: int, j: int| 0 <= i < n && 0 <= j < n && i != j implies
            (#[trigger] ws2[i]).id != (#[trigger] ws2[j]).id by {
            let si = if i < k { i } else if i < n - 1 { i + 1 } else { k };
            let sj = if j < k { j } else if j < n - 1 { j + 1 } else { k };
            assert(ws2[i].id == ws[si].id);
            assert(ws2[j].id == ws[sj].id);
            assert(si != sj);
        }
        assert forall|i: int| 0 <= i < n implies (#[trigger] ws2[i]).wf() && ws2[i].id < next_id by {
            let si = if i < k { i } else if i < n - 1 { i + 1 } else { k };
            assert(ws2[i].id == ws[si].id);
            assert(ws[si].wf());
        }
        assert forall|i: int| 0 <= i < n && (#[trigger] ws2[i]).is_focused implies i == n - 1 && !ws2[i].is_minimized by {
        }
    }
}

/// Closing a window keeps the stack sound.
pub proof fn lemma_remove_keeps_stack(ws: Seq<Window>, next_id: usize, k: int)
    requires
        windows_ok(ws, next_id),
        0 <= k < ws.len(),
    ensures
        windows_ok(ws.remove(k), next_id),
{
    let ws2 = ws.remove(k);
    let n = ws.len();
    assert forall|j: int| 0 <= j < n - 1 implies #[trigger] ws2[j] == ws[if j < k { j } else { j + 1 }] by {}
    assert forall|i: int, j: int| 0 <= i < n - 1 && 0 <= j < n - 1 && i != j implies
        (#[trigger] ws2[i]).id != (#[trigger] ws2[j]).id by {
        let si = if i < k { i } else { i + 1 };
        let sj = if j < k { j } else { j + 1 };
        assert(ws2[i] == ws[si]);
        assert(ws2[j] == ws[sj]);
    }
    assert forall|i: int| 0 <= i < n - 1 implies (#[trigger] ws2[i]).wf() && ws2[i].id < next_id by {
        let si = if i < k { i } else { i + 1 };
        assert(ws2[i] == ws[si]);
    }
    assert forall|i: int| 0 <= i < n - 1 && (#[trigger] ws2[i]).is_focused implies i == n - 2 && !ws2[i].is_minimized by {
        let si = if i < k { i } else { i + 1 };
        assert(ws2[i] == ws[si]);
    }
}

/// Replacing a window by one with the same id that is sound, and focused
/// only where the old one was, keeps the stack sound.
pub proof fn lemma_update_keeps_stack(ws: Seq<Window>, next_id: usize, k: int, w: Window)
    requires
        windows_ok(ws, next_id),
        0 <= k < ws.len(),
        w.wf(),
        w.id == ws[k].id,
        w.is_focused ==> ws[k].is_focused && !w.is_minimized,
    ensures
        windows_ok(ws.update(k, w), next_id),
{
    let ws2 = ws.update(k, w);
    assert forall|i: int, j: int| 0 <= i < ws2.len() && 0 <= j < ws2.len() && i != j implies
        (#[trigger] ws2[i]).id != (#[trigger] ws2[j]).id by {
        assert(ws2[i].id == ws[i].id);
        assert(ws2[j].id == ws[j].id);
    }
    assert forall|i: int| 0 <= i < ws2.len() implies (#[trigger] ws2[i]).wf() && ws2[i].id < next_id by {
        assert(ws2[i].id == ws[i].id);
    }
}

/// What the pointer and window bookkeeping of the desktop amounts to.
pub struct DeskState {
    pub windows: Seq<Window>,
    pub next_id: usize,
    pub dragging: Option<usize>,
    pub drag_dx: isize,
    pub drag_dy: isize,
    pub menu_open: bool,
    pub prev_left: bool,
}

/// `s` with a new focused window of `kind` at the front, given the next id.
pub open spec fn with_spawned(s: DeskState, kind: AppKind, x: isize, y: isize, w: usize, h: usize) -> DeskState {
    DeskState {
        windows: unfocused(s.windows).push(Window { id: s.next_id, x, y, width: w, height: h, is_minimized: false, is_focused: true, kind }),
        next_id: (s.next_id + 1) as usize,
        ..s
    }
}

/// What the mouse handler tells the host to do besides redrawing.
#[derive(Debug, Clone, Copy, PartialEq, Eq, Structural)]
pub enum DesktopAction {
    Nothing,
    /// A window of `kind` with id `id` was opened: create its application.
    Spawned { kind: AppKind, id: usize },
    /// Window `id` was closed: drop its application.
    Closed { id: usize },
    /// The client area of window `id` was clicked at this local position.
    Click { id: usize, local_x: isize, local_y: isize },
    /// "Shut Down..." was picked: reset the machine.
    Reboot,
}

/// `w` moved to `(x, y)`.
pub open spec fn moved(w: Window, x: isize, y: isize) -> Window {
    Window { id: w.id, x, y, width: w.width, height: w.height, is_minimized: w.is_minimized, is_focused: w.is_focused, kind: w.kind }
}

/// `v` brought into `lo..=hi`.
pub open spec fn clamped(v: int, lo: int, hi: int) -> int {
    if v < lo { lo } else if v > hi { hi } else { v }
}

/// The width of each taskbar tab when `n` windows share the room between
/// the start button and the tray of a `width`-wide screen.
pub open spec fn tab_width(width: int, n: int) -> int {
    let tray_x = if width - 124 > 100 { width - 124 } else { 100 };
    let room = if tray_x - 77 > 60 { tray_x - 77 } else { 60 };
    let per = room / (if n > 1 { n } else { 1 });
    clamped(if per >= 4 { per - 4 } else { 0 }, 60, 140)
}

/// The first tab from number `i` (starting at `tab_x`, each `tw` wide and
/// 4 apart) under `x`, among `n` tabs.
pub open spec fn tab_hit_from(x: int, tab_x: int, tw: int, i: int, n: int) -> Option<int>
    decreases n - i,
{
    if i >= n {
        None
    } else if tab_x <= x < tab_x + tw {
        Some(i)
    } else {
        tab_hit_from(x, tab_x + tw + 4, tw, i + 1, n)
    }
}

/// Tabs that start right of `x` are not under it.
pub proof fn lemma_tabs_past(x: int, tab_x: int, tw: int, i: int, n: int)
    requires
        tab_x > x,
        tw >= 0,
    ensures
        tab_hit_from(x, tab_x, tw, i, n) is None,
    decreases n - i,
{
    if i < n {
        lemma_tabs_past(x, tab_x + tw + 4, tw, i + 1, n);
    }
}

/// The frontmost of the first `k` windows under `(x, y)`.
pub open spec fn hit_below(ws: Seq<Window>, k: int, x: int, y: int) -> Option<int>
    decreases k,
{
    if k <= 0 {
        None
    } else if ws[k - 1].covers(x, y) {
        Some(k - 1)
    } else {
        hit_below(ws, k - 1, x, y)
    }
}

/// A press on the taskbar: the start button toggles the menu; a tab
/// minimizes its window if that window has the focus and raises it
/// otherwise, closing the menu.
pub open spec fn taskbar_press(s: DeskState, width: int, x: int) -> DeskState {
    if 3 <= x <= 73 {
        DeskState { menu_open: !s.menu_open, ..s }
    } else {
        match tab_hit_from(x, 77, tab_width(width, s.windows.len() as int), 0, s.windows.len() as int) {
            Some(i) => DeskState {
                windows: if s.windows[i].is_focused && !s.windows[i].is_minimized {
                    s.windows.update(i, minimized(s.windows[i]))
                } else {
                    raised(s.windows, i)
                },
                menu_open: false,
                ..s
            },
            None => s,
        }
    }
}

/// A press while the start menu is open, on a screen `height` high: an
/// entry opens its application or asks for a reset; any press closes the
/// menu.
pub open spec fn menu_press(s: DeskState, height: int, x: int, y: int) -> (DeskState, DesktopAction) {
    let menu_y = height - 28 - 276;
    let rel = y - (menu_y + 4);
    if in_box(x, y, 2, menu_y, 210, 276) && rel >= 0 && rel / 24 <= 9 {
        let kind = kind_of_id(rel / 24);
        let g = spawn_geometry(kind);
        (DeskState { menu_open: false, ..with_spawned(s, kind, g.0, g.1, g.2, g.3) }, DesktopAction::Spawned { kind, id: s.next_id })
    } else if in_box(x, y, 2, menu_y, 210, 276) && rel >= 0 && rel / 24 == 10 {
        (DeskState { menu_open: false, ..s }, DesktopAction::Reboot)
    } else {
        (DeskState { menu_open: false, ..s }, DesktopAction::Nothing)
    }
}

/// A press on window `i`: its close button closes it, its minimize button
/// minimizes it, its title bar raises it and starts a drag, and its client
/// area raises it and passes the click on in client coordinates.
pub open spec fn window_press(s: DeskState, i: int, x: int, y: int) -> (DeskState, DesktopAction) {
    let w = s.windows[i];
    if w.on_close(x, y) {
        (DeskState { windows: s.windows.remove(i), ..s }, DesktopAction::Closed { id: w.id })
    } else if w.on_minimize(x, y) {
        (DeskState { windows: s.windows.update(i, minimized(w)), ..s }, DesktopAction::Nothing)
    } else if w.on_titlebar(x, y) {
        (DeskState {
            windows: raised(s.windows, i),
            dragging: Some((s.windows.len() - 1) as usize),
            drag_dx: (x - w.x) as isize,
            drag_dy: (y - w.y) as isize,
            ..s
        }, DesktopAction::Nothing)
    } else {
        (DeskState { windows: raised(s.windows, i), ..s },
         DesktopAction::Click { id: w.id, local_x: (x - (w.x + 4)) as isize, local_y: (y - (w.y + 22)) as isize })
    }
}

/// A fresh left press at `(x, y)` on a `width` by `height` screen: the
/// taskbar first, then the open start menu, then the windows front to back,
/// then the shortcuts; the flag says whether the screen needs redrawing.
pub open spec fn press(s: DeskState, width: int, height: int, x: int, y: int) -> (DeskState, bool, DesktopAction) {
    if y >= height - 28 {
        (taskbar_press(s, width, x), true, DesktopAction::Nothing)
    } else if s.menu_open {
        let (s2, a) = menu_press(s, height, x, y);
        (s2, true, a)
    } else {
        match hit_below(s.windows, s.windows.len() as int, x, y) {
            Some(i) => {
                let (s2, a) = window_press(s, i, x, y);
                (s2, true, a)
            },
            None => match icon_hit_from(x, y, 0) {
                Some(k) => {
                    let kind = kind_of_id(k);
                    let g = spawn_geometry(kind);
                    (with_spawned(s, kind, g.0, g.1, g.2, g.3), true, DesktopAction::Spawned { kind, id: s.next_id })
                },
                None => (s, false, DesktopAction::Nothing),
            },
        }
    }
}

/// One mouse report: while a window is dragged it follows the pointer (its
/// top kept between 0 and 48 pixels above the bottom) until the button is
/// let go; otherwise only a fresh left press does anything.
pub open spec fn mouse_step(s: DeskState, width: int, height: int, ev: MouseEvent) -> (DeskState, bool, DesktopAction) {
    let s1 = DeskState { prev_left: ev.left_pressed, ..s };
    match s.dragging {
        Some(idx) => if ev.left_pressed {
            (DeskState {
                windows: if idx < s.windows.len() {
                    s.windows.update(idx as int, moved(s.windows[idx as int], (ev.x - s.drag_dx) as isize,
                        clamped(ev.y - s.drag_dy, 0, height - 48) as isize))
                } else {
                    s.windows
                },
                ..s1
            }, true, DesktopAction::Nothing)
        } else {
            (DeskState { dragging: None, ..s1 }, true, DesktopAction::Nothing)
        },
        None => if ev.left_pressed && !s.prev_left {
            press(s1, width, height, ev.x as int, ev.y as int)
        } else {
            (s1, false, DesktopAction::Nothing)
        },
    }
}

/// The 24 by 24 pixels of the `w` by `h` picture `buf` with top-left corner
/// `(x, y)`, row by row; 0 for those off the screen.
pub open spec fn saved_under(buf: Seq<u32>, w: int, h: int, x: int, y: int) -> Seq<u32> {
    Seq::new(576, |k: int| {
        let px = x + k % 24;
        let py = y + k / 24;
        if 0 <= px < w && 0 <= py < h { buf[py * w + px] } else { 0u32 }
    })
}

/// `buf` (`w` wide) with the first `k` of the 24 by 24 `saved` pixels (row
/// by row) put back at `(x, y)`.
pub open spec fn put_back_upto(buf: Seq<u32>, saved: Seq<u32>, w: int, x: int, y: int, k: int) -> Seq<u32> {
    Seq::new(buf.len(), |i: int| {
        let col = i % w;
        let row = i / w;
        if in_rect(x, y, 24, 24, col, row) && (row - y) * 24 + (col - x) < k {
            saved[(row - y) * 24 + (col - x)]
        } else {
            buf[i]
        }
    })
}

/// `buf` with the 24 by 24 `saved` pixels put back at `(x, y)`.
pub open spec fn put_back(buf: Seq<u32>, saved: Seq<u32>, w: int, x: int, y: int) -> Seq<u32> {
    put_back_upto(buf, saved, w, x, y, 576)
}

/// `screen` after presenting the 24 by 24 box at `(rx, ry)` of `buf`, cut
/// to the `w` by `h` screen.
pub open spec fn box_flushed(screen: Seq<u32>, buf: Seq<u32>, w: int, h: int, rx: int, ry: int) -> Seq<u32> {
    let x0 = clamped(rx, 0, w);
    let y0 = clamped(ry, 0, h);
    let x1 = clamped(rx + 24, 0, w);
    let y1 = clamped(ry + 24, 0, h);
    if x1 > x0 && y1 > y0 {
        Seq::new(screen.len(), |i: int|
            if x0 <= i % w < x0 + (x1 - x0) && y0 <= i / w < y0 + (y1 - y0) { buf[i] } else { screen[i] })
    } else {
        screen
    }
}

/// Putting back the background saved at `(x, y)` restores the picture,
/// whatever was drawn inside that box in between.
pub proof fn lemma_put_back_restores(buf: Seq<u32>, drawn: Seq<u32>, w: int, h: int, x: int, y: int)
    requires
        buf.len() == w * h,
        drawn.len() == buf.len(),
        h >= 0,
        forall|i: int| 0 <= i < buf.len() && !in_rect(x, y, 24, 24, i % w, i / w) ==> #[trigger] drawn[i] == buf[i],
    ensures
        put_back(drawn, saved_under(buf, w, h, x, y), w, x, y) == buf,
{
    let r = put_back(drawn, saved_under(buf, w, h, x, y), w, x, y);
    assert forall|i: int| 0 <= i < buf.len() implies #[trigger] r[i] == buf[i] by {
        lemma_index_split(i, w, h);
        let col = i % w;
        let row = i / w;
        if in_rect(x, y, 24, 24, col, row) {
            let k = (row - y) * 24 + (col - x);
            lemma_pixel_index(row - y, col - x, 24, 24);
            assert(k % 24 == col - x && k / 24 == row - y);
            assert(row * w + col == i);
        }
    }
    assert(r =~= buf);
}

/// The pointer drawn over a saved background leaves no trace once that
/// background is put back.
pub proof fn lemma_pointer_leaves_no_trace(fb: Framebuffer, x: int, y: int)
    requires
        fb.wf(),
    ensures
        put_back(fb.cursor_pixels_upto(fb.backbuffer@, x, y, 272),
            saved_under(fb.backbuffer@, fb.width as int, fb.height as int, x, y), fb.width as int, x, y)
            == fb.backbuffer@,
{
    let buf = fb.backbuffer@;
    let drawn = fb.cursor_pixels_upto(buf, x, y, 272);
    assert forall|i: int| 0 <= i < buf.len() && !in_rect(x, y, 24, 24, i % (fb.width as int), i / (fb.width as int))
        implies #[trigger] drawn[i] == buf[i] by {}
    lemma_put_back_restores(buf, drawn, fb.width as int, fb.height as int, x, y);
}

/// The frontmost of the first `k` windows that is focused and shown: the
/// one that takes the keyboard.
pub open spec fn key_target_below(ws: Seq<Window>, k: int) -> Option<int>
    decreases k,
{
    if k <= 0 {
        None
    } else if ws[k - 1].is_focused && !ws[k - 1].is_minimized {
        Some(k - 1)
    } else {
        key_target_below(ws, k - 1)
    }
}

/// The windows that a timer tick reaches, back to front, each with whether
/// its answer can call for a redraw: every shown window, and a minimized
/// music player (which keeps playing) without a say in redrawing.
pub open spec fn tick_list(ws: Seq<Window>) -> Seq<(usize, bool)>
    decreases ws.len(),
{
    if ws.len() == 0 {
        Seq::empty()
    } else {
        let w = ws.last();
        let rest = tick_list(ws.drop_last());
        if !w.is_minimized {
            rest.push((w.id, true))
        } else if w.kind == AppKind::Music {
            rest.push((w.id, false))
        } else {
            rest
        }
    }
}

/// The windows the desktop opens with, back to front: the system monitor,
/// a terminal, the settings (minimized) and the music player in front with
/// the focus.
pub open spec fn initial_windows() -> Seq<Window> {
    seq![
        Window { id: 1, x: 390, y: 15, width: 395, height: 260, is_minimized: false, is_focused: false, kind: AppKind::SysInfo },
        Window { id: 2, x: 280, y: 290, width: 505, height: 265, is_minimized: false, is_focused: false, kind: AppKind::Terminal },
        Window { id: 4, x: 155, y: 20, width: 380, height: 260, is_minimized: true, is_focused: false, kind: AppKind::Settings },
        Window { id: 3, x: 15, y: 20, width: 365, height: 260, is_minimized: false, is_focused: true, kind: AppKind::Music },
    ]
}

/// What the host does on a timer tick, besides redrawing when the theme
/// changed: tick these windows' applications, and read the clock if due.
pub struct TickPlan {
    pub theme_changed: bool,
    /// Window ids back to front, each with whether its answer counts
    /// towards a redraw.
    pub ticks: Vec<(usize, bool)>,
    pub clock_due: bool,
}

/// The first of the windows from number `i` on that holds a `kind` application.
pub open spec fn first_kind_from(ws: Seq<Window>, kind: AppKind, i: int) -> Option<int>
    decreases ws.len() - i,
{
    if i >= ws.len() || i < 0 {
        None
    } else if ws[i].kind == kind {
        Some(i)
    } else {
        first_kind_from(ws, kind, i + 1)
    }
}

/// The position of the first window holding a `kind` application.
fn first_of_kind(ws: &Vec<Window>, kind: AppKind) -> (r: Option<usize>)
    ensures
        r == (match first_kind_from(ws@, kind, 0) { Some(i) => Some(i as usize), None => None }),
        r matches Some(i) ==> i < ws@.len(),
{
    let mut i: usize = 0;
    while i < ws.len()
        invariant
            i <= ws@.len(),
            first_kind_from(ws@, kind, 0) == first_kind_from(ws@, kind, i as int),
        decreases ws@.len() - i,
    {
        if ws[i].kind == kind {
            return Some(i);
        }
        i = i + 1;
    }
    None
}

/// The application with start-menu number `i`.
fn kind_from_id(i: usize) -> (k: AppKind)
    requires
        i < 10,
    ensures
        k == kind_of_id(i as int),
{
    match i {
        0 => AppKind::Terminal,
        1 => AppKind::SysInfo,
        2 => AppKind::Calculator,
        3 => AppKind::Notepad,
        4 => AppKind::Snake,
        5 => AppKind::Music,
        6 => AppKind::ImageViewer,
        7 => AppKind::Settings,
        8 => AppKind::ElfRunner,
        _ => AppKind::Doom,
    }
}

/// Where a window of `kind` opened from the menu or a shortcut appears.
fn geometry_of(kind: AppKind) -> (g: (isize, isize, usize, usize))
    ensures
        g == spawn_geometry(kind),
{
    match kind {
        AppKind::Terminal => (140, 80, 480, 270),
        AppKind::SysInfo => (180, 100, 420, 260),
        AppKind::Calculator => (300, 140, 220, 280),
        AppKind::Notepad => (220, 90, 360, 250),
        AppKind::Snake => (200, 80, 320, 300),
        AppKind::Music => (180, 100, 380, 300),
        AppKind::ImageViewer => (160, 60, 480, 360),
        AppKind::Settings => (200, 120, 380, 280),
        AppKind::ElfRunner => (160, 80, 520, 360),
        AppKind::Doom => (78, 45, 644, 454),
    }
}

/// Shortcut `k` over the wallpaper (column `k / 5`, row `k % 5`), named
/// `name`: an outline when the pointer at `(mx, my)` is over it, its icon,
/// and its name (at most 64 characters) centred under it over a black
/// shadow.
pub open spec fn shortcut_shapes(k: int, name: Seq<char>, mx: int, my: int) -> Seq<ShapeV> {
    let ix: int = if k < 5 { 16 } else { 80 };
    let iy: int = 16 + 68 * (k % 5);
    let hovered = mx >= ix && mx < ix + 54 && my >= iy && my < iy + 54;
    let l = clip_to(name, 64);
    let lx = ix + half(54 - 8 * l.len());
    (if hovered { seq![soutline(ix + 2, iy + 2, 50, 48, palette::RETRO_HIGHLIGHT)] } else { Seq::empty() })
        + icon24_shapes(icon_for_id(k), ix + 15, iy + 6)
        + seq![stext(lx + 1, iy + 36, l, palette::BLACK), stext(lx, iy + 35, l, palette::WHITE)]
}

/// Shortcuts `0..k` of `icons`.
pub open spec fn shortcuts_upto(icons: Seq<DesktopIcon>, mx: int, my: int, k: int) -> Seq<ShapeV>
    decreases k,
{
    if k <= 0 {
        Seq::empty()
    } else {
        shortcuts_upto(icons, mx, my, k - 1) + shortcut_shapes(k - 1, icons[k - 1].name@, mx, my)
    }
}

/// The shortcuts over the wallpaper, in two columns of five: each icon with
/// its label (shadowed), the one under the pointer at `(mouse_x, mouse_y)`
/// outlined; exactly the pixels of `shortcuts_upto(icons@, .., 10)`.
fn draw_shortcuts(fb: &mut Framebuffer, icons: &[DesktopIcon; 10], mouse_x: isize, mouse_y: isize)
    requires
        old(fb).wf(),
        small(mouse_x as int),
        small(mouse_y as int),
    ensures
        drawn_over(*old(fb), *final(fb)),
        final(fb).backbuffer@ == painted(*old(fb), old(fb).backbuffer@,
            shortcuts_upto(icons@, mouse_x as int, mouse_y as int, 10)),
{
    let ghost fb0 = *fb;
    let mut k: usize = 0;
    while k < 10
        invariant
            fb.wf(),
            fb.same_frame(&fb0),
            fb0 == *old(fb),
            small(mouse_x as int),
            small(mouse_y as int),
            k <= 10,
            fb.backbuffer@ == painted(fb0, fb0.backbuffer@, shortcuts_upto(icons@, mouse_x as int, mouse_y as int, k as int)),
        decreases 10 - k,
    {
        let ghost mid = *fb;
        draw_shortcut(fb, k, icons[k].name, mouse_x, mouse_y);
        proof {
            lemma_paint_seq(fb0, mid, shortcuts_upto(icons@, mouse_x as int, mouse_y as int, k as int),
                shortcut_shapes(k as int, icons@[k as int].name@, mouse_x as int, mouse_y as int));
        }
        k = k + 1;
    }
}

/// Draws `shortcut_shapes(k, name@, mouse_x, mouse_y)`.
fn draw_shortcut(fb: &mut Framebuffer, k: usize, name: &str, mouse_x: isize, mouse_y: isize)
    requires
        old(fb).wf(),
        k < 10,
        small(mouse_x as int),
        small(mouse_y as int),
    ensures
        final(fb).wf(),
        final(fb).same_frame(old(fb)),
        final(fb).bga == old(fb).bga,
        painted(*old(fb), old(fb).backbuffer@, shortcut_shapes(k as int, name@, mouse_x as int, mouse_y as int))
            == final(fb).backbuffer@,
{
    let ghost fb0 = *fb;
    let ix: isize = if k < 5 { 16 } else { 80 };
    let iy: isize = 16 + 68 * (k % 5) as isize;
    let hovered = mouse_x >= ix && mouse_x < ix + 54 && mouse_y >= iy && mouse_y < iy + 54;
    let ghost mut drawn: Seq<ShapeV> = Seq::empty();
    if hovered {
        let ghost mid = *fb;
        frame(fb, ix + 2, iy + 2, 50, 48, Color::from_raw(palette::RETRO_HIGHLIGHT));
        proof {
            lemma_paint_step(fb0, mid, drawn, soutline(ix + 2, iy + 2, 50, 48, palette::RETRO_HIGHLIGHT));
            drawn = drawn.push(soutline(ix + 2, iy + 2, 50, 48, palette::RETRO_HIGHLIGHT));
        }
    }
    let icon = AppIcon::from_id(k);
    let ghost mid = *fb;
    draw_icon_24(fb, ix + 15, iy + 6, icon);
    proof {
        lemma_paint_seq(fb0, mid, drawn, icon24_shapes(icon, ix + 15, iy + 6));
        drawn = drawn + icon24_shapes(icon, ix + 15, iy + 6);
    }
    let t = chars_of(name);
    let t = clipped(t.as_slice(), 64);
    let lx = ix + half_of(54 - (t.len() * 8) as isize);
    let ghost mid = *fb;
    label_any(fb, lx + 1, iy + 36, t.as_slice(), Color::from_raw(palette::BLACK));
    proof {
        assert(shown(t@) == t@);
        lemma_paint_step(fb0, mid, drawn, stext(lx + 1, iy + 36, t@, palette::BLACK));
        drawn = drawn.push(stext(lx + 1, iy + 36, t@, palette::BLACK));
    }
    let ghost mid = *fb;
    label_any(fb, lx, iy + 35, t.as_slice(), Color::from_raw(palette::WHITE));
    proof {
        lemma_paint_step(fb0, mid, drawn, stext(lx as int, iy + 35, t@, palette::WHITE));
        drawn = drawn.push(stext(lx as int, iy + 35, t@, palette::WHITE));
        assert(drawn =~= shortcut_shapes(k as int, name@, mouse_x as int, mouse_y as int));
    }
}

/// The light dots of row `dy` of a dithered tab at `(tab_x, ty + 3)`, from
/// column `s` up to (not including) column `dx`, two pixels apart.
pub open spec fn dots_between(tab_x: int, ty: int, dy: int, s: int, dx: int) -> Seq<ShapeV>
    decreases dx - s,
{
    if dx < s + 2 {
        Seq::empty()
    } else {
        dots_between(tab_x, ty, dy, s, dx - 2).push(sfill(tab_x + dx - 2, ty + 3 + dy, 1, 1, palette::RETRO_LIGHT))
    }
}

/// The first column at or past `tab_w - 2` that row dots starting at `s`
/// reach.
pub open spec fn row_end(s: int, tab_w: int) -> int {
    if s >= tab_w - 2 { s } else { s + 2 * ((tab_w - 2 - s + 1) / 2) }
}

/// Rows `2..k` of the dithering of a `tab_w`-wide tab at `(tab_x, ty + 3)`:
/// a checkerboard of light dots, every other pixel, inside a two-pixel
/// margin.
pub open spec fn dither_upto(tab_x: int, ty: int, tab_w: int, k: int) -> Seq<ShapeV>
    decreases k,
{
    if k <= 2 {
        Seq::empty()
    } else {
        let dy = k - 1;
        let s = 2 + dy % 2;
        dither_upto(tab_x, ty, tab_w, k - 1) + dots_between(tab_x, ty, dy, s, row_end(s, tab_w))
    }
}

/// The checkered light dots over the pressed tab of the focused window,
/// `tab_w` wide at `(tab_x, ty + 3)`: exactly `dither_upto(.., 20)`.
fn dither_tab(fb: &mut Framebuffer, tab_x: isize, ty: isize, tab_w: isize)
    requires
        old(fb).wf(),
        60 <= tab_w <= 140,
        78 <= tab_x <= 0x1_0100,
        0 <= ty <= 0x1_0000,
    ensures
        drawn_over(*old(fb), *final(fb)),
        final(fb).backbuffer@ == painted(*old(fb), old(fb).backbuffer@, dither_upto(tab_x as int, ty as int, tab_w as int, 20)),
{
    let ghost fb0 = *fb;
    let mut dy: isize = 2;
    while dy < 20
        invariant
            fb.wf(),
            fb.same_frame(&fb0),
            fb.bga == fb0.bga,
            fb0 == *old(fb),
            60 <= tab_w <= 140,
            78 <= tab_x <= 0x1_0100,
            0 <= ty <= 0x1_0000,
            2 <= dy <= 20,
            fb.backbuffer@ == painted(fb0, fb0.backbuffer@, dither_upto(tab_x as int, ty as int, tab_w as int, dy as int)),
        decreases 21 - dy,
    {
        let ghost before = dither_upto(tab_x as int, ty as int, tab_w as int, dy as int);
        let s: isize = 2 + dy % 2;
        let mut dx: isize = s;
        while dx < tab_w - 2
            invariant
                fb.wf(),
                fb.same_frame(&fb0),
                fb.bga == fb0.bga,
                60 <= tab_w <= 140,
                78 <= tab_x <= 0x1_0100,
                0 <= ty <= 0x1_0000,
                2 <= dy < 20,
                s == 2 + dy % 2,
                s <= dx <= tab_w,
                (dx - s) % 2 == 0,
                dx > s ==> dx - 2 < tab_w - 2,
                fb.backbuffer@ == painted(fb0, fb0.backbuffer@, before + dots_between(tab_x as int, ty as int, dy as int, s as int, dx as int)),
            decreases tab_w - dx,
        {
            let ghost mid = *fb;
            let ghost d = sfill(tab_x + dx, ty + 3 + dy, 1, 1, palette::RETRO_LIGHT);
            dot(fb, tab_x + dx, ty + 3 + dy, Color::from_raw(palette::RETRO_LIGHT));
            proof {
                lemma_paint_step(fb0, mid, before + dots_between(tab_x as int, ty as int, dy as int, s as int, dx as int), d);
                assert((before + dots_between(tab_x as int, ty as int, dy as int, s as int, dx as int)).push(d)
                    =~= before + dots_between(tab_x as int, ty as int, dy as int, s as int, dx + 2));
            }
            dx = dx + 2;
        }
        assert(dx == row_end(s as int, tab_w as int));
        assert(before + dots_between(tab_x as int, ty as int, dy as int, s as int, dx as int)
            =~= dither_upto(tab_x as int, ty as int, tab_w as int, dy + 1));
        dy = dy + 1;
    }
}

/// The taskbar's left part on a `w`-wide screen whose taskbar starts at row
/// `ty`: its face and two light lines, the start button (pressed while the
/// menu is open) with its four-square flag, and "Start" in bold.
pub open spec fn taskbar_head(w: int, ty: int, pressed: bool) -> Seq<ShapeV> {
    let off: int = if pressed { 1 } else { 0 };
    let fx = 7 + off;
    let fy = ty + 6 + off;
    seq![
        sfill(0, ty, w, 28, palette::RETRO_FACE),
        sfill(0, ty, w, 1, palette::RETRO_LIGHT),
        sfill(0, ty + 1, w, 1, palette::RETRO_HIGHLIGHT),
        ShapeV::Button { x: 3, y: ty + 3, w: 70, h: 22, pressed },
        sfill(fx, fy, 4, 4, pack_argb(255, 239, 68, 68)),
        sfill(fx + 5, fy, 4, 4, pack_argb(255, 34, 197, 94)),
        sfill(fx, fy + 5, 4, 4, pack_argb(255, 59, 130, 246)),
        sfill(fx + 5, fy + 5, 4, 4, pack_argb(255, 234, 179, 8)),
        stext(fx + 14, ty + 7 + off, "Start"@, palette::BLACK),
        stext(fx + 15, ty + 7 + off, "Start"@, palette::BLACK)
    ]
}

/// Where the tray starts on a `w`-wide screen.
pub open spec fn tray_left(w: int) -> int {
    if w - 124 > 100 { w - 124 } else { 100 }
}

/// The width each of `n` window tabs is drawn on a `w`-wide screen: an
/// equal share of the room between the start button and the tray, less a
/// gap, kept between 60 and 140.
pub open spec fn drawn_tab_width(w: int, n: int) -> int {
    let room = if tray_left(w) - 78 > 60 { tray_left(w) - 78 } else { 60 };
    let per = room / (if n > 1 { n } else { 1 });
    let raw = if per >= 4 { per - 4 } else { 0 };
    if raw < 60 { 60 } else if raw > 140 { 140 } else { raw }
}

/// The tab of window `win` titled `title` at `tab_x`: a button, pressed and
/// dithered when the window is focused and shown, with the title's icon and
/// as much of the title as fits (both one pixel in when pressed).
pub open spec fn tab_shapes(win: Window, title: Seq<char>, tab_x: int, ty: int, tab_w: int) -> Seq<ShapeV> {
    let active = win.is_focused && !win.is_minimized;
    let toff: int = if active { 1 } else { 0 };
    let max_chars = if (tab_w - 26) / 8 > 1 { (tab_w - 26) / 8 } else { 1 };
    seq![ShapeV::Button { x: tab_x, y: ty + 3, w: tab_w, h: 22, pressed: active }]
        + (if active { dither_upto(tab_x, ty, tab_w, 20) } else { Seq::empty() })
        + icon16_shapes(icon_for_title(title), tab_x + 4 + toff, ty + 4 + toff)
        + seq![stext(tab_x + 22 + toff, ty + 7 + toff, clip_to(title, max_chars), palette::BLACK)]
}

/// The tabs of windows `0..k` of `wins`, titled by `titles`, each `tab_w`
/// wide and four pixels apart from column 78.
pub open spec fn tabs_upto(wins: Seq<Window>, titles: Seq<&str>, ty: int, tab_w: int, k: int) -> Seq<ShapeV>
    decreases k,
{
    if k <= 0 {
        Seq::empty()
    } else {
        tabs_upto(wins, titles, ty, tab_w, k - 1)
            + tab_shapes(wins[k - 1], titles[k - 1]@, 78 + (k - 1) * (tab_w + 4), ty, tab_w)
    }
}

/// How many of `n` tabs, from tab `i` on, start on a `w`-wide screen: the
/// tabs up to the first that would start past the right edge.
pub open spec fn tabs_shown_from(n: int, w: int, tab_w: int, i: int) -> int
    decreases n - i,
{
    if i < n && 78 + i * (tab_w + 4) <= w { tabs_shown_from(n, w, tab_w, i + 1) } else { i }
}

/// `hh:mm:ss` of `clock`.
pub open spec fn time_of_day(clock: RtcTime) -> Seq<char> {
    zero_pad(decimal_digits(clock.hours as nat), 2) + ":"@ + zero_pad(decimal_digits(clock.minutes as nat), 2)
        + ":"@ + zero_pad(decimal_digits(clock.seconds as nat), 2)
}

/// The tray at `tray_x`: its sunken panel, the pixel-art speaker and the
/// time of `clock`.
pub open spec fn tray_scene(tray_x: int, ty: int, clock: RtcTime) -> Seq<ShapeV> {
    let sx = tray_x + 6;
    let sy = ty + 7;
    seq![
        ShapeV::Panel { x: tray_x, y: ty + 3, w: 120, h: 22 },
        sfill(sx, sy + 2, 2, 4, palette::BLACK),
        sfill(sx + 2, sy + 1, 1, 1, palette::BLACK),
        sfill(sx + 3, sy, 1, 1, palette::BLACK),
        sfill(sx + 2, sy + 6, 1, 1, palette::BLACK),
        sfill(sx + 3, sy + 7, 1, 1, palette::BLACK),
        sfill(sx + 3, sy + 1, 1, 6, palette::BLACK),
        sfill(sx + 5, sy + 2, 1, 1, palette::BLACK),
        sfill(sx + 5, sy + 5, 1, 1, palette::BLACK),
        sfill(sx + 7, sy + 1, 1, 1, palette::BLACK),
        sfill(sx + 7, sy + 6, 1, 1, palette::BLACK),
        stext(tray_x + 22, ty + 7, time_of_day(clock), palette::BLACK)
    ]
}

/// The taskbar of a `w` by `h` screen: its left part, the tabs of `wins`
/// titled by `titles` that fit, and the tray with the time of `clock`.
pub open spec fn taskbar_scene(w: int, h: int, pressed: bool, wins: Seq<Window>, titles: Seq<&str>, clock: RtcTime)
    -> Seq<ShapeV>
{
    let ty = h - 28;
    let tab_w = drawn_tab_width(w, wins.len() as int);
    taskbar_head(w, ty, pressed)
        + tabs_upto(wins, titles, ty, tab_w, tabs_shown_from(wins.len() as int, w, tab_w, 0))
        + tray_scene(tray_left(w), ty, clock)
}

/// What the last part of a full redraw paints on a `w` by `h` screen: the
/// taskbar, the start menu when it is open, and the pointer at `(mx, my)`.
pub open spec fn foreground_scene(w: int, h: int, menu_open: bool, wins: Seq<Window>, titles: Seq<&str>, clock: RtcTime,
    mx: int, my: int) -> Seq<ShapeV>
{
    taskbar_scene(w, h, menu_open, wins, titles, clock)
        + (if menu_open { start_menu_scene(h - 28, mx, my) } else { Seq::empty() })
        + seq![ShapeV::Pointer { x: mx, y: my }]
}

/// Draws `taskbar_head(w, ty, pressed)`.
fn draw_taskbar_head(fb: &mut Framebuffer, w: usize, ty: isize, pressed: bool)
    requires
        old(fb).wf(),
        w <= 0x1_0000,
        0 <= ty <= 0x1_0000,
    ensures
        drawn_over(*old(fb), *final(fb)),
        final(fb).backbuffer@ == painted(*old(fb), old(fb).backbuffer@, taskbar_head(w as int, ty as int, pressed)),
{
    let ghost fb0 = *fb;
    let off: isize = if pressed { 1 } else { 0 };
    let flag_x = 7 + off;
    let flag_y = ty + 6 + off;
    let red = Color::from_rgb(239, 68, 68);
    let green = Color::from_rgb(34, 197, 94);
    let blue = Color::from_rgb(59, 130, 246);
    let yellow = Color::from_rgb(234, 179, 8);
    let black = Color::from_raw(palette::BLACK);
    let ghost sh = taskbar_head(w as int, ty as int, pressed);
    let ghost mid = *fb;
    rect(fb, 0, ty, w, 28, Color::from_raw(palette::RETRO_FACE));
    proof {
        lemma_paint_step(fb0, mid, sh.take(0), sh[0]);
        assert(sh.take(0).push(sh[0]) =~= sh.take(1));
    }
    let ghost mid = *fb;
    rect(fb, 0, ty, w, 1, Color::from_raw(palette::RETRO_LIGHT));
    proof {
        lemma_paint_step(fb0, mid, sh.take(1), sh[1]);
        assert(sh.take(1).push(sh[1]) =~= sh.take(2));
    }
    let ghost mid = *fb;
    rect(fb, 0, ty + 1, w, 1, Color::from_raw(palette::RETRO_HIGHLIGHT));
    proof {
        lemma_paint_step(fb0, mid, sh.take(2), sh[2]);
        assert(sh.take(2).push(sh[2]) =~= sh.take(3));
    }
    let ghost mid = *fb;
    button(fb, 3, ty + 3, 70, 22, pressed);
    proof {
        lemma_paint_step(fb0, mid, sh.take(3), sh[3]);
        assert(sh.take(3).push(sh[3]) =~= sh.take(4));
    }
    let ghost mid = *fb;
    rect(fb, flag_x, flag_y, 4, 4, red);
    proof {
        lemma_paint_step(fb0, mid, sh.take(4), sh[4]);
        assert(sh.take(4).push(sh[4]) =~= sh.take(5));
    }
    let ghost mid = *fb;
    rect(fb, flag_x + 5, flag_y, 4, 4, green);
    proof {
        lemma_paint_step(fb0, mid, sh.take(5), sh[5]);
        assert(sh.take(5).push(sh[5]) =~= sh.take(6));
    }
    let ghost mid = *fb;
    rect(fb, flag_x, flag_y + 5, 4, 4, blue);
    proof {
        lemma_paint_step(fb0, mid, sh.take(6), sh[6]);
        assert(sh.take(6).push(sh[6]) =~= sh.take(7));
    }
    let ghost mid = *fb;
    rect(fb, flag_x + 5, flag_y + 5, 4, 4, yellow);
    proof {
        lemma_paint_step(fb0, mid, sh.take(7), sh[7]);
        assert(sh.take(7).push(sh[7]) =~= sh.take(8));
    }
    let ghost mid = *fb;
    label(fb, flag_x + 14, ty + 7 + off, "Start", black);
    proof {
        lemma_paint_step(fb0, mid, sh.take(8), sh[8]);
        assert(sh.take(8).push(sh[8]) =~= sh.take(9));
    }
    let ghost mid = *fb;
    label(fb, flag_x + 15, ty + 7 + off, "Start", black);
    proof {
        lemma_paint_step(fb0, mid, sh.take(9), sh[9]);
        assert(sh.take(9).push(sh[9]) =~= sh);
    }
}

/// Draws `tab_shapes(win, title@, tab_x, ty, tab_w)`.
fn draw_tab(fb: &mut Framebuffer, win: Window, title: &str, tab_x: isize, ty: isize, tab_w: isize)
    requires
        old(fb).wf(),
        60 <= tab_w <= 140,
        78 <= tab_x <= 0x1_0100,
        0 <= ty <= 0x1_0000,
    ensures
        drawn_over(*old(fb), *final(fb)),
        final(fb).backbuffer@ == painted(*old(fb), old(fb).backbuffer@, tab_shapes(win, title@, tab_x as int, ty as int, tab_w as int)),
{
    let ghost fb0 = *fb;
    let active = win.is_focused && !win.is_minimized;
    let toff: isize = if active { 1 } else { 0 };
    let ghost b = ShapeV::Button { x: tab_x as int, y: ty + 3, w: tab_w as int, h: 22, pressed: active };
    let ghost mid = *fb;
    button(fb, tab_x, ty + 3, tab_w as usize, 22, active);
    proof {
        lemma_paint_step(fb0, mid, Seq::empty(), b);
        assert(Seq::<ShapeV>::empty().push(b) =~= seq![b]);
    }
    let ghost mut drawn = seq![b];
    if active {
        let ghost mid = *fb;
        dither_tab(fb, tab_x, ty, tab_w);
        proof {
            lemma_paint_seq(fb0, mid, drawn, dither_upto(tab_x as int, ty as int, tab_w as int, 20));
            drawn = drawn + dither_upto(tab_x as int, ty as int, tab_w as int, 20);
        }
    } else {
        assert(drawn =~= drawn + Seq::<ShapeV>::empty());
    }
    let icon = icon_from_title(title);
    let ghost mid = *fb;
    draw_icon_16(fb, tab_x + 4 + toff, ty + 4 + toff, icon);
    proof {
        lemma_paint_seq(fb0, mid, drawn, icon16_shapes(icon, tab_x + 4 + toff, ty + 4 + toff));
        drawn = drawn + icon16_shapes(icon, tab_x + 4 + toff, ty + 4 + toff);
    }
    let max_chars: usize = if (tab_w - 26) / 8 > 1 { ((tab_w - 26) / 8) as usize } else { 1 };
    let t = chars_of(title);
    let shown_t = clipped(t.as_slice(), max_chars);
    let ghost last = stext(tab_x + 22 + toff, ty + 7 + toff, shown_t@, palette::BLACK);
    let ghost mid = *fb;
    label_any(fb, tab_x + 22 + toff, ty + 7 + toff, shown_t.as_slice(), Color::from_raw(palette::BLACK));
    proof {
        assert(shown(shown_t@) == shown_t@);
        lemma_paint_step(fb0, mid, drawn, last);
        assert(drawn.push(last) =~= tab_shapes(win, title@, tab_x as int, ty as int, tab_w as int));
    }
}

/// Draws `tray_scene(tray_x, ty, clock)`.
fn draw_tray(fb: &mut Framebuffer, tray_x: isize, ty: isize, clock: RtcTime)
    requires
        old(fb).wf(),
        100 <= tray_x <= 0x1_0000,
        0 <= ty <= 0x1_0000,
    ensures
        drawn_over(*old(fb), *final(fb)),
        final(fb).backbuffer@ == painted(*old(fb), old(fb).backbuffer@, tray_scene(tray_x as int, ty as int, clock)),
{
    let ghost fb0 = *fb;
    let ghost sh = tray_scene(tray_x as int, ty as int, clock);
    let black = Color::from_raw(palette::BLACK);
    let sx = tray_x + 6;
    let sy = ty + 7;
    let ghost mid = *fb;
    sunken_panel(fb, tray_x, ty + 3, 120, 22);
    proof {
        lemma_paint_step(fb0, mid, sh.take(0), sh[0]);
        assert(sh.take(0).push(sh[0]) =~= sh.take(1));
    }
    let ghost mid = *fb;
    rect(fb, sx, sy + 2, 2, 4, black);
    proof {
        lemma_paint_step(fb0, mid, sh.take(1), sh[1]);
        assert(sh.take(1).push(sh[1]) =~= sh.take(2));
    }
    let ghost mid = *fb;
    dot(fb, sx + 2, sy + 1, black);
    proof {
        lemma_paint_step(fb0, mid, sh.take(2), sh[2]);
        assert(sh.take(2).push(sh[2]) =~= sh.take(3));
    }
    let ghost mid = *fb;
    dot(fb, sx + 3, sy, black);
    proof {
        lemma_paint_step(fb0, mid, sh.take(3), sh[3]);
        assert(sh.take(3).push(sh[3]) =~= sh.take(4));
    }
    let ghost mid = *fb;
    dot(fb, sx + 2, sy + 6, black);
    proof {
        lemma_paint_step(fb0, mid, sh.take(4), sh[4]);
        assert(sh.take(4).push(sh[4]) =~= sh.take(5));
    }
    let ghost mid = *fb;
    dot(fb, sx + 3, sy + 7, black);
    proof {
        lemma_paint_step(fb0, mid, sh.take(5), sh[5]);
        assert(sh.take(5).push(sh[5]) =~= sh.take(6));
    }
    let ghost mid = *fb;
    rect(fb, sx + 3, sy + 1, 1, 6, black);
    proof {
        lemma_paint_step(fb0, mid, sh.take(6), sh[6]);
        assert(sh.take(6).push(sh[6]) =~= sh.take(7));
    }
    let ghost mid = *fb;
    dot(fb, sx + 5, sy + 2, black);
    proof {
        lemma_paint_step(fb0, mid, sh.take(7), sh[7]);
        assert(sh.take(7).push(sh[7]) =~= sh.take(8));
    }
    let ghost mid = *fb;
    dot(fb, sx + 5, sy + 5, black);
    proof {
        lemma_paint_step(fb0, mid, sh.take(8), sh[8]);
        assert(sh.take(8).push(sh[8]) =~= sh.take(9));
    }
    let ghost mid = *fb;
    dot(fb, sx + 7, sy + 1, black);
    proof {
        lemma_paint_step(fb0, mid, sh.take(9), sh[9]);
        assert(sh.take(9).push(sh[9]) =~= sh.take(10));
    }
    let ghost mid = *fb;
    dot(fb, sx + 7, sy + 6, black);
    proof {
        lemma_paint_step(fb0, mid, sh.take(10), sh[10]);
        assert(sh.take(10).push(sh[10]) =~= sh.take(11));
    }
    let mut text = format_padded(clock.hours as u64, 2);
    crate::chars::append_str(&mut text, ":");
    crate::chars::append_chars(&mut text, format_padded(clock.minutes as u64, 2).as_slice());
    crate::chars::append_str(&mut text, ":");
    crate::chars::append_chars(&mut text, format_padded(clock.seconds as u64, 2).as_slice());
    assert(text@ =~= time_of_day(clock));
    let ghost mid = *fb;
    label_any(fb, tray_x + 22, ty + 7, text.as_slice(), black);
    proof {
        lemma_paint_step(fb0, mid, sh.take(11), sh[11]);
        assert(sh.take(11).push(sh[11]) =~= sh);
    }
}

/// The start menu's entries, top to bottom.
pub open spec fn menu_item(i: int) -> Seq<char> {
    if i == 0 { "Terminal"@ } else if i == 1 { "System Monitor"@ } else if i == 2 { "Calculator"@ }
    else if i == 3 { "Notepad Editor"@ } else if i == 4 { "Snake Game"@ } else if i == 5 { "Music Player"@ }
    else if i == 6 { "Image Viewer"@ } else if i == 7 { "Desktop Settings"@ } else if i == 8 { "ELF Runner"@ }
    else if i == 9 { "DOOM (1993)"@ } else { "Shut Down..."@ }
}

/// Letters `0..k` of the banner's vertical `MOUROS 98` in a menu whose top
/// is `menu_y`, 20 pixels apart, white over a black shadow (the space
/// leaves a gap).
pub open spec fn banner_upto(menu_y: int, k: int) -> Seq<ShapeV>
    decreases k,
{
    if k <= 0 {
        Seq::empty()
    } else {
        let c = "MOUROS 98"@[k - 1];
        let by = menu_y + 24 + 20 * (k - 1);
        banner_upto(menu_y, k - 1) + if c != ' ' {
            seq![stext(11, by + 1, seq![c], palette::BLACK), stext(10, by, seq![c], palette::WHITE)]
        } else {
            Seq::empty()
        }
    }
}

/// Entry `i` of a menu whose top is `menu_y`, with the pointer at
/// `(mx, my)`: the navy bar when the pointer is over it, its icon, its name
/// (white when under the pointer, else red for shutting down, amber for the
/// game, black for the rest), and the groove under the game.
pub open spec fn menu_entry(menu_y: int, mx: int, my: int, i: int) -> Seq<ShapeV> {
    let iy = menu_y + 4 + 24 * i;
    let hovered = mx >= 30 && mx < 208 && my >= iy && my < iy + 24;
    let color = if hovered { palette::WHITE } else if i == 10 { pack_argb(255, 180, 20, 20) }
        else if i == 9 { pack_argb(255, 160, 100, 0) } else { palette::BLACK };
    (if hovered { seq![sfill(30, iy, 178, 24, palette::RETRO_SELECTION)] } else { Seq::empty() })
        + icon16_shapes(icon_for_id(i), 34, iy + 4)
        + seq![stext(56, iy + 7, menu_item(i), color)]
        + if i == 9 { seq![ShapeV::Groove { x: 30, y: iy + 24, w: 178, h: 2 }] } else { Seq::empty() }
}

/// Entries `0..k` of the menu.
pub open spec fn menu_entries(menu_y: int, mx: int, my: int, k: int) -> Seq<ShapeV>
    decreases k,
{
    if k <= 0 { Seq::empty() } else { menu_entries(menu_y, mx, my, k - 1) + menu_entry(menu_y, mx, my, k - 1) }
}

/// The open start menu above the taskbar at `ty`, with the pointer at
/// `(mx, my)`: its face and raised border, the blue banner with the
/// lettering, and the eleven entries.
pub open spec fn start_menu_scene(ty: int, mx: int, my: int) -> Seq<ShapeV> {
    let menu_y = ty - 276;
    seq![
        sfill(2, menu_y, 210, 276, palette::RETRO_FACE),
        ShapeV::Raised { x: 2, y: menu_y, w: 210, h: 276 },
        ShapeV::GradientV { x: 4, y: menu_y + 2, w: 24, h: 272, top: pack_argb(255, 0, 0, 128), bottom: pack_argb(255, 16, 132, 208) }
    ] + banner_upto(menu_y, 9) + menu_entries(menu_y, mx, my, 11)
}

/// A glyph draws as a one-letter text.
proof fn lemma_glyph_is_text(fb: Framebuffer, buf: Seq<u32>, x: int, y: int, c: char, color: u32)
    requires
        c != '\n',
    ensures
        fb.text_pixels(buf, x, y, shown(seq![c]), color) == fb.char_pixels(buf, x, y, c, color),
{
    let s = seq![c];
    assert(shown(s) =~= s);
    assert(s.len() == 1 && s[0] == c);
    assert(s.drop_first() =~= Seq::<char>::empty());
    let b1 = fb.char_pixels(buf, x, y, c, color);
    assert(fb.text_pixels(b1, x + 8, y, s.drop_first(), color) == b1);
}

/// The open start menu above the taskbar at `ty`: exactly the pixels of
/// `start_menu_scene(ty, mouse_x, mouse_y)` (raised box, the blue banner
/// with the vertical lettering, and the eleven entries with their icons,
/// the one under the pointer highlighted; a groove before "Shut Down...").
fn draw_start_menu(fb: &mut Framebuffer, ty: isize, mouse_x: isize, mouse_y: isize)
    requires
        old(fb).wf(),
        20 <= ty <= 0x1_0000,
        small(mouse_x as int),
        small(mouse_y as int),
    ensures
        drawn_over(*old(fb), *final(fb)),
        final(fb).backbuffer@ == painted(*old(fb), old(fb).backbuffer@, start_menu_scene(ty as int, mouse_x as int, mouse_y as int)),
{
    let ghost fb0 = *fb;
    let menu_y = ty - 276;
    let navy = Color::from_rgb(0, 0, 128);
    let blue = Color::from_rgb(16, 132, 208);
    let ghost s0 = sfill(2, menu_y as int, 210, 276, palette::RETRO_FACE);
    let ghost s1 = ShapeV::Raised { x: 2, y: menu_y as int, w: 210, h: 276 };
    let ghost s2 = ShapeV::GradientV { x: 4, y: menu_y + 2, w: 24, h: 272, top: navy.raw, bottom: blue.raw };
    let ghost mid = *fb;
    rect(fb, 2, menu_y, 210, 276, Color::from_raw(palette::RETRO_FACE));
    proof {
        lemma_paint_step(fb0, mid, Seq::empty(), s0);
        assert(Seq::<ShapeV>::empty().push(s0) =~= seq![s0]);
    }
    let ghost mid = *fb;
    crate::render::raised(fb, 2, menu_y, 210, 276);
    proof { lemma_paint_step(fb0, mid, seq![s0], s1); }
    let ghost mid = *fb;
    gradient_v(fb, 4, menu_y + 2, 24, 272, navy, blue);
    proof {
        lemma_paint_step(fb0, mid, seq![s0].push(s1), s2);
        assert(seq![s0].push(s1).push(s2) =~= seq![s0, s1, s2]);
    }
    let ghost head = seq![s0, s1, s2];
    let banner = chars_of("MOUROS 98");
    proof {
        reveal_strlit("MOUROS 98");
        assert(forall|j: int| 0 <= j < 9 ==> #[trigger] banner@[j] != '\n');
    }
    let mut b: usize = 0;
    while b < 9
        invariant
            forall|j: int| 0 <= j < 9 ==> #[trigger] banner@[j] != '\n',
            fb.wf(),
            fb.same_frame(&fb0),
            fb.bga == fb0.bga,
            banner@ == "MOUROS 98"@,
            banner@.len() == 9,
            -0x1000 <= menu_y <= 0x1_0000,
            b <= 9,
            fb.backbuffer@ == painted(fb0, fb0.backbuffer@, head + banner_upto(menu_y as int, b as int)),
        decreases 9 - b,
    {
        let ch = banner[b];
        let ghost before = head + banner_upto(menu_y as int, b as int);
        if ch != ' ' {
            let by = menu_y + 24 + (b * 20) as isize;
            let ghost t0 = stext(11, by + 1, seq![ch], palette::BLACK);
            let ghost t1 = stext(10, by as int, seq![ch], palette::WHITE);
            let ghost mid = *fb;
            glyph(fb, 11, by + 1, ch, Color::from_raw(palette::BLACK));
            proof {
                lemma_glyph_is_text(mid, mid.backbuffer@, 11, by + 1, ch, palette::BLACK);
                lemma_paint_step(fb0, mid, before, t0);
            }
            let ghost mid = *fb;
            glyph(fb, 10, by, ch, Color::from_raw(palette::WHITE));
            proof {
                lemma_glyph_is_text(mid, mid.backbuffer@, 10, by as int, ch, palette::WHITE);
                lemma_paint_step(fb0, mid, before.push(t0), t1);
                assert(before.push(t0).push(t1) =~= head + banner_upto(menu_y as int, b + 1));
            }
        } else {
            assert(before =~= head + banner_upto(menu_y as int, b + 1));
        }
        b = b + 1;
    }
    let ghost head2 = head + banner_upto(menu_y as int, 9);
    let mut i: usize = 0;
    while i < 11
        invariant
            fb.wf(),
            fb.same_frame(&fb0),
            fb.bga == fb0.bga,
            -0x1000 <= menu_y <= 0x1_0000,
            small(mouse_x as int),
            small(mouse_y as int),
            i <= 11,
            fb.backbuffer@ == painted(fb0, fb0.backbuffer@,
                head2 + menu_entries(menu_y as int, mouse_x as int, mouse_y as int, i as int)),
        decreases 11 - i,
    {
        let ghost mid = *fb;
        draw_menu_entry(fb, menu_y, mouse_x, mouse_y, i);
        proof {
            lemma_paint_seq(fb0, mid, head2 + menu_entries(menu_y as int, mouse_x as int, mouse_y as int, i as int),
                menu_entry(menu_y as int, mouse_x as int, mouse_y as int, i as int));
            assert(head2 + menu_entries(menu_y as int, mouse_x as int, mouse_y as int, i as int)
                + menu_entry(menu_y as int, mouse_x as int, mouse_y as int, i as int)
                =~= head2 + menu_entries(menu_y as int, mouse_x as int, mouse_y as int, i + 1));
        }
        i = i + 1;
    }
    assert(head2 + menu_entries(menu_y as int, mouse_x as int, mouse_y as int, 11)
        =~= start_menu_scene(ty as int, mouse_x as int, mouse_y as int));
}

/// Draws `menu_entry(menu_y, mouse_x, mouse_y, i)`.
fn draw_menu_entry(fb: &mut Framebuffer, menu_y: isize, mouse_x: isize, mouse_y: isize, i: usize)
    requires
        old(fb).wf(),
        -0x1000 <= menu_y <= 0x1_0000,
        small(mouse_x as int),
        small(mouse_y as int),
        i < 11,
    ensures
        final(fb).wf(),
        final(fb).same_frame(old(fb)),
        final(fb).bga == old(fb).bga,
        final(fb).backbuffer@ == painted(*old(fb), old(fb).backbuffer@, menu_entry(menu_y as int, mouse_x as int, mouse_y as int, i as int)),
{
    let ghost fb0 = *fb;
    let iy = menu_y + 4 + (i * 24) as isize;
    let hovered = mouse_x >= 30 && mouse_x < 208 && mouse_y >= iy && mouse_y < iy + 24;
    let ghost mut drawn: Seq<ShapeV> = Seq::empty();
    if hovered {
        let ghost mid = *fb;
        rect(fb, 30, iy, 178, 24, Color::from_raw(palette::RETRO_SELECTION));
        proof {
            lemma_paint_step(fb0, mid, drawn, sfill(30, iy as int, 178, 24, palette::RETRO_SELECTION));
            drawn = drawn.push(sfill(30, iy as int, 178, 24, palette::RETRO_SELECTION));
        }
    }
    let icon = AppIcon::from_id(i);
    let ghost mid = *fb;
    draw_icon_16(fb, 34, iy + 4, icon);
    proof {
        lemma_paint_seq(fb0, mid, drawn, icon16_shapes(icon, 34, iy + 4));
        drawn = drawn + icon16_shapes(icon, 34, iy + 4);
    }
    let color = if hovered {
        Color::from_raw(palette::WHITE)
    } else if i == 10 {
        Color::from_rgb(180, 20, 20)
    } else if i == 9 {
        Color::from_rgb(160, 100, 0)
    } else {
        Color::from_raw(palette::BLACK)
    };
    let name = if i == 0 { "Terminal" } else if i == 1 { "System Monitor" } else if i == 2 { "Calculator" }
        else if i == 3 { "Notepad Editor" } else if i == 4 { "Snake Game" } else if i == 5 { "Music Player" }
        else if i == 6 { "Image Viewer" } else if i == 7 { "Desktop Settings" } else if i == 8 { "ELF Runner" }
        else if i == 9 { "DOOM (1993)" } else { "Shut Down..." };
    let ghost mid = *fb;
    label(fb, 56, iy + 7, name, color);
    proof {
        lemma_paint_step(fb0, mid, drawn, stext(56, iy + 7, name@, color.raw));
        drawn = drawn.push(stext(56, iy + 7, name@, color.raw));
    }
    if i == 9 {
        let ghost mid = *fb;
        groove(fb, 30, iy + 24, 178, 2);
        proof {
            lemma_paint_step(fb0, mid, drawn, ShapeV::Groove { x: 30, y: iy + 24, w: 178, h: 2 });
            drawn = drawn.push(ShapeV::Groove { x: 30, y: iy + 24, w: 178, h: 2 });
        }
    }
    assert(drawn =~= menu_entry(menu_y as int, mouse_x as int, mouse_y as int, i as int));
}


/// The desktop.
pub struct Desktop {
    pub fb: Framebuffer,
    /// The current theme's wallpaper, one pixel per screen pixel.
    pub wallpaper: Vec<u32>,
    /// Back to front.
    pub windows: Vec<Window>,
    pub next_window_id: usize,
    pub dragging_window_idx: Option<usize>,
    pub drag_offset_x: isize,
    pub drag_offset_y: isize,
    pub start_menu_open: bool,
    pub icons: [DesktopIcon; 10],
    pub prev_left_pressed: bool,
    pub theme: Theme,
    /// The 24 by 24 pixels under the pointer, row by row.
    pub cursor_saved: Vec<u32>,
    pub cursor_saved_x: isize,
    pub cursor_saved_y: isize,
    pub cursor_active: bool,
    pub clock_cache: RtcTime,
    pub last_clock_sec: u8,
    pub tick_count: usize,
}

impl Desktop {
    /// The pointer and window bookkeeping.
    pub open spec fn state(&self) -> DeskState {
        DeskState {
            windows: self.windows@,
            next_id: self.next_window_id,
            dragging: self.dragging_window_idx,
            drag_dx: self.drag_offset_x,
            drag_dy: self.drag_offset_y,
            menu_open: self.start_menu_open,
            prev_left: self.prev_left_pressed,
        }
    }

    /// The screen is at least a taskbar and a title bar high, and small; the
    /// wallpaper and the saved pointer background have their sizes; the
    /// window stack is sound; a dragged window exists.
    pub open spec fn wf(&self) -> bool {
        &&& self.fb.wf()
        &&& 48 <= self.fb.height <= 0x1000_0000
        &&& self.fb.width <= 0x1000_0000
        &&& self.fb.width * self.fb.height * 4 <= isize::MAX
        &&& self.fb.height * 256 <= usize::MAX
        &&& self.wallpaper@.len() == self.fb.width * self.fb.height
        &&& self.cursor_saved@.len() == 576
        &&& small(self.cursor_saved_x as int)
        &&& small(self.cursor_saved_y as int)
        &&& windows_ok(self.windows@, self.next_window_id)
        &&& (self.dragging_window_idx matches Some(i) ==> i < self.windows@.len())
        &&& -0x2000_0000 <= self.drag_offset_x <= 0x2000_0000
        &&& -0x2000_0000 <= self.drag_offset_y <= 0x2000_0000
        &&& forall|i: int| 0 <= i < 10 ==> #[trigger] self.icons@[i].x == icon_x(i) && self.icons@[i].y == icon_y(i) && self.icons@[i].app_id == i
    }

    /// Everything but the pointer and window bookkeeping is as in `other`.
    pub open spec fn same_rest(&self, other: &Desktop) -> bool {
        &&& self.fb == other.fb
        &&& self.wallpaper@ == other.wallpaper@
        &&& self.icons@ == other.icons@
        &&& self.theme == other.theme
        &&& self.cursor_saved@ == other.cursor_saved@
        &&& self.cursor_saved_x == other.cursor_saved_x
        &&& self.cursor_saved_y == other.cursor_saved_y
        &&& self.cursor_active == other.cursor_active
        &&& self.clock_cache == other.clock_cache
        &&& self.last_clock_sec == other.last_clock_sec
        &&& self.tick_count == other.tick_count
    }

    /// Clears every window's focus flag.
    fn unfocus_all(&mut self)
        ensures
            final(self).windows@ == unfocused(old(self).windows@),
            final(self).next_window_id == old(self).next_window_id,
            final(self).dragging_window_idx == old(self).dragging_window_idx,
            final(self).drag_offset_x == old(self).drag_offset_x,
            final(self).drag_offset_y == old(self).drag_offset_y,
            final(self).start_menu_open == old(self).start_menu_open,
            final(self).prev_left_pressed == old(self).prev_left_pressed,
            final(self).same_rest(old(self)),
    {
        let n = self.windows.len();
        let mut i: usize = 0;
        while i < n
            invariant
                n == old(self).windows@.len(),
                self.windows@.len() == n,
                i <= n,
                forall|j: int| 0 <= j < i ==> #[trigger] self.windows@[j] == unfocus(old(self).windows@[j]),
                forall|j: int| i <= j < n ==> #[trigger] self.windows@[j] == old(self).windows@[j],
                self.next_window_id == old(self).next_window_id,
                self.dragging_window_idx == old(self).dragging_window_idx,
                self.drag_offset_x == old(self).drag_offset_x,
                self.drag_offset_y == old(self).drag_offset_y,
                self.start_menu_open == old(self).start_menu_open,
                self.prev_left_pressed == old(self).prev_left_pressed,
                self.same_rest(old(self)),
            decreases n - i,
        {
            let mut w = self.windows[i];
            w.is_focused = false;
            self.windows.set(i, w);
            i = i + 1;
        }
        assert(self.windows@ =~= unfocused(old(self).windows@));
    }

    /// Brings window `idx` to the front, shown and focused.
    fn focus_window_at_index(&mut self, idx: usize)
        ensures
            final(self).windows@ == raised(old(self).windows@, idx as int),
            final(self).next_window_id == old(self).next_window_id,
            final(self).dragging_window_idx == old(self).dragging_window_idx,
            final(self).drag_offset_x == old(self).drag_offset_x,
            final(self).drag_offset_y == old(self).drag_offset_y,
            final(self).start_menu_open == old(self).start_menu_open,
            final(self).prev_left_pressed == old(self).prev_left_pressed,
            final(self).same_rest(old(self)),
    {
        if idx < self.windows.len() {
            self.unfocus_all();
            let mut win = self.windows.remove(idx);
            win.is_focused = true;
            win.is_minimized = false;
            self.windows.push(win);
        }
    }

    /// A desktop on `fb` in the classic theme, showing `clock`, with the
    /// initial windows open.
    pub fn new(fb: Framebuffer, clock: RtcTime) -> (d: Desktop)
        requires
            fb.wf(),
            48 <= fb.height <= 0x1000_0000,
            fb.width <= 0x1000_0000,
            fb.width * fb.height * 4 <= isize::MAX,
            fb.height * 256 <= usize::MAX,
        ensures
            d.wf(),
            d.fb == fb,
            d.theme.kind == ThemeKind::Windows98,
            d.theme.palette_of() == crate::theme::theme_palette(ThemeKind::Windows98),
            d.wallpaper@ == wallpaper_pixels(d.theme, fb.width as int, fb.height as int),
            d.windows@ == initial_windows(),
            d.next_window_id == 5,
            d.dragging_window_idx is None,
            !d.start_menu_open,
            !d.prev_left_pressed,
            d.cursor_saved@ == Seq::new(576, |i: int| 0u32),
            d.cursor_saved_x == -100,
            d.cursor_saved_y == -100,
            !d.cursor_active,
            d.clock_cache == clock,
            d.last_clock_sec == clock.seconds,
            d.tick_count == 0,
    {
        let theme = Theme::get(ThemeKind::Windows98);
        let wallpaper = theme.render_wallpaper(fb.width, fb.height);
        let icons = icon_table();
        let mut cursor_saved: Vec<u32> = Vec::new();
        while cursor_saved.len() < 576
            invariant
                cursor_saved@.len() <= 576,
                forall|i: int| 0 <= i < cursor_saved@.len() ==> cursor_saved@[i] == 0u32,
            decreases 576 - cursor_saved@.len(),
        {
            cursor_saved.push(0);
        }
        assert(cursor_saved@ =~= Seq::new(576, |i: int| 0u32));
        let mut desktop = Desktop {
            fb,
            wallpaper,
            windows: Vec::new(),
            next_window_id: 1,
            dragging_window_idx: None,
            drag_offset_x: 0,
            drag_offset_y: 0,
            start_menu_open: false,
            icons,
            prev_left_pressed: false,
            theme,
            cursor_saved,
            cursor_saved_x: -100,
            cursor_saved_y: -100,
            cursor_active: false,
            clock_cache: clock,
            last_clock_sec: clock.seconds,
            tick_count: 0,
        };
        assert(windows_ok(desktop.windows@, 1));
        desktop.spawn_sysinfo(390, 15, 395, 260);
        desktop.spawn_terminal(280, 290, 505, 265);
        desktop.spawn_music(15, 20, 365, 260);
        desktop.spawn_settings(155, 20, 380, 260);
        let last = desktop.windows.len() - 1;
        let mut settings = desktop.windows[last];
        settings.is_minimized = true;
        settings.is_focused = false;
        proof {
            lemma_update_keeps_stack(desktop.windows@, desktop.next_window_id, last as int, settings);
        }
        desktop.windows.set(last, settings);
        let ghost before = desktop.windows@;
        assert(before[0].kind == AppKind::SysInfo && before[1].kind == AppKind::Terminal && before[2].kind == AppKind::Music);
        assert(first_kind_from(before, AppKind::Music, 0) == Some(2int)) by {
            reveal_with_fuel(first_kind_from, 4);
        }
        if let Some(i) = first_of_kind(&desktop.windows, AppKind::Music) {
            desktop.raise_window(i);
        }
        assert(desktop.windows@ =~= initial_windows());
        desktop
    }

    /// Opens a terminal window at `(x, y)`, `w` by `h`; see `spawn_window`.
    pub fn spawn_terminal(&mut self, x: isize, y: isize, w: usize, h: usize) -> (id: usize)
        requires
            old(self).wf(),
            old(self).next_window_id < usize::MAX,
            small(x as int),
            small(y as int),
            w <= 0x1000_0000,
            h <= 0x1000_0000,
        ensures
            final(self).wf(),
            id == old(self).next_window_id,
            final(self).state() == with_spawned(old(self).state(), AppKind::Terminal, x, y, w, h),
            final(self).same_rest(old(self)),
    {
        self.spawn_window(AppKind::Terminal, x, y, w, h)
    }

    /// Opens a system monitor window at `(x, y)`, `w` by `h`; see `spawn_window`.
    pub fn spawn_sysinfo(&mut self, x: isize, y: isize, w: usize, h: usize) -> (id: usize)
        requires
            old(self).wf(),
            old(self).next_window_id < usize::MAX,
            small(x as int),
            small(y as int),
            w <= 0x1000_0000,
            h <= 0x1000_0000,
        ensures
            final(self).wf(),
            id == old(self).next_window_id,
            final(self).state() == with_spawned(old(self).state(), AppKind::SysInfo, x, y, w, h),
            final(self).same_rest(old(self)),
    {
        self.spawn_window(AppKind::SysInfo, x, y, w, h)
    }

    /// Opens a calculator window at `(x, y)`, `w` by `h`; see `spawn_window`.
    pub fn spawn_calculator(&mut self, x: isize, y: isize, w: usize, h: usize) -> (id: usize)
        requires
            old(self).wf(),
            old(self).next_window_id < usize::MAX,
            small(x as int),
            small(y as int),
            w <= 0x1000_0000,
            h <= 0x1000_0000,
        ensures
            final(self).wf(),
            id == old(self).next_window_id,
            final(self).state() == with_spawned(old(self).state(), AppKind::Calculator, x, y, w, h),
            final(self).same_rest(old(self)),
    {
        self.spawn_window(AppKind::Calculator, x, y, w, h)
    }

    /// Opens a notepad window at `(x, y)`, `w` by `h`; see `spawn_window`.
    pub fn spawn_notepad(&mut self, x: isize, y: isize, w: usize, h: usize) -> (id: usize)
        requires
            old(self).wf(),
            old(self).next_window_id < usize::MAX,
            small(x as int),
            small(y as int),
            w <= 0x1000_0000,
            h <= 0x1000_0000,
        ensures
            final(self).wf(),
            id == old(self).next_window_id,
            final(self).state() == with_spawned(old(self).state(), AppKind::Notepad, x, y, w, h),
            final(self).same_rest(old(self)),
    {
        self.spawn_window(AppKind::Notepad, x, y, w, h)
    }

    /// Opens a snake game window at `(x, y)`, `w` by `h`; see `spawn_window`.
    pub fn spawn_snake(&mut self, x: isize, y: isize, w: usize, h: usize) -> (id: usize)
        requires
            old(self).wf(),
            old(self).next_window_id < usize::MAX,
            small(x as int),
            small(y as int),
            w <= 0x1000_0000,
            h <= 0x1000_0000,
        ensures
            final(self).wf(),
            id == old(self).next_window_id,
            final(self).state() == with_spawned(old(self).state(), AppKind::Snake, x, y, w, h),
            final(self).same_rest(old(self)),
    {
        self.spawn_window(AppKind::Snake, x, y, w, h)
    }

    /// Opens a music player window at `(x, y)`, `w` by `h`; see `spawn_window`.
    pub fn spawn_music(&mut self, x: isize, y: isize, w: usize, h: usize) -> (id: usize)
        requires
            old(self).wf(),
            old(self).next_window_id < usize::MAX,
            small(x as int),
            small(y as int),
            w <= 0x1000_0000,
            h <= 0x1000_0000,
        ensures
            final(self).wf(),
            id == old(self).next_window_id,
            final(self).state() == with_spawned(old(self).state(), AppKind::Music, x, y, w, h),
            final(self).same_rest(old(self)),
    {
        self.spawn_window(AppKind::Music, x, y, w, h)
    }

    /// Opens an image viewer window at `(x, y)`, `w` by `h`; see `spawn_window`.
    pub fn spawn_image_viewer(&mut self, x: isize, y: isize, w: usize, h: usize) -> (id: usize)
        requires
            old(self).wf(),
            old(self).next_window_id < usize::MAX,
            small(x as int),
            small(y as int),
            w <= 0x1000_0000,
            h <= 0x1000_0000,
        ensures
            final(self).wf(),
            id == old(self).next_window_id,
            final(self).state() == with_spawned(old(self).state(), AppKind::ImageViewer, x, y, w, h),
            final(self).same_rest(old(self)),
    {
        self.spawn_window(AppKind::ImageViewer, x, y, w, h)
    }

    /// Opens a settings window at `(x, y)`, `w` by `h`; see `spawn_window`.
    pub fn spawn_settings(&mut self, x: isize, y: isize, w: usize, h: usize) -> (id: usize)
        requires
            old(self).wf(),
            old(self).next_window_id < usize::MAX,
            small(x as int),
            small(y as int),
            w <= 0x1000_0000,
            h <= 0x1000_0000,
        ensures
            final(self).wf(),
            id == old(self).next_window_id,
            final(self).state() == with_spawned(old(self).state(), AppKind::Settings, x, y, w, h),
            final(self).same_rest(old(self)),
    {
        self.spawn_window(AppKind::Settings, x, y, w, h)
    }

    /// Opens an ELF runner window at `(x, y)`, `w` by `h`; see `spawn_window`.
    pub fn spawn_elf_runner(&mut self, x: isize, y: isize, w: usize, h: usize) -> (id: usize)
        requires
            old(self).wf(),
            old(self).next_window_id < usize::MAX,
            small(x as int),
            small(y as int),
            w <= 0x1000_0000,
            h <= 0x1000_0000,
        ensures
            final(self).wf(),
            id == old(self).next_window_id,
            final(self).state() == with_spawned(old(self).state(), AppKind::ElfRunner, x, y, w, h),
            final(self).same_rest(old(self)),
    {
        self.spawn_window(AppKind::ElfRunner, x, y, w, h)
    }

    /// Opens a DOOM window at `(x, y)`, `w` by `h`; see `spawn_window`.
    pub fn spawn_doom(&mut self, x: isize, y: isize, w: usize, h: usize) -> (id: usize)
        requires
            old(self).wf(),
            old(self).next_window_id < usize::MAX,
            small(x as int),
            small(y as int),
            w <= 0x1000_0000,
            h <= 0x1000_0000,
        ensures
            final(self).wf(),
            id == old(self).next_window_id,
            final(self).state() == with_spawned(old(self).state(), AppKind::Doom, x, y, w, h),
            final(self).same_rest(old(self)),
    {
        self.spawn_window(AppKind::Doom, x, y, w, h)
    }

    /// Opens a DOOM window at `(x, y)`, `w` by `h`, for a game on a chosen
    /// map (the host starts the game on that map); see `spawn_window`.
    pub fn spawn_doom_with_map(&mut self, x: isize, y: isize, w: usize, h: usize) -> (id: usize)
        requires
            old(self).wf(),
            old(self).next_window_id < usize::MAX,
            small(x as int),
            small(y as int),
            w <= 0x1000_0000,
            h <= 0x1000_0000,
        ensures
            final(self).wf(),
            id == old(self).next_window_id,
            final(self).state() == with_spawned(old(self).state(), AppKind::Doom, x, y, w, h),
            final(self).same_rest(old(self)),
    {
        self.spawn_window(AppKind::Doom, x, y, w, h)
    }

    /// The id of the window that takes a key press: the frontmost focused,
    /// shown window, if any.
    pub fn handle_key_event(&self) -> (target: Option<usize>)
        ensures
            target == (match key_target_below(self.windows@, self.windows@.len() as int) {
                Some(i) => Some(self.windows@[i].id),
                None => None,
            }),
    {
        let n = self.windows.len();
        let mut i = n;
        while i > 0
            invariant
                i <= n,
                n == self.windows@.len(),
                key_target_below(self.windows@, n as int) == key_target_below(self.windows@, i as int),
            decreases i,
        {
            i = i - 1;
            if self.windows[i].is_focused && !self.windows[i].is_minimized {
                return Some(self.windows[i].id);
            }
        }
        None
    }

    /// Switches to the theme of `kind` and paints its wallpaper.
    pub fn apply_theme(&mut self, kind: ThemeKind)
        requires
            old(self).wf(),
        ensures
            final(self).wf(),
            final(self).theme.kind == kind,
            final(self).theme.palette_of() == crate::theme::theme_palette(kind),
            final(self).wallpaper@ == wallpaper_pixels(final(self).theme, old(self).fb.width as int, old(self).fb.height as int),
            final(self).state() == old(self).state(),
            final(self).fb == old(self).fb,
            final(self).cursor_saved@ == old(self).cursor_saved@,
            final(self).cursor_saved_x == old(self).cursor_saved_x,
            final(self).cursor_saved_y == old(self).cursor_saved_y,
            final(self).cursor_active == old(self).cursor_active,
            final(self).clock_cache == old(self).clock_cache,
            final(self).last_clock_sec == old(self).last_clock_sec,
            final(self).tick_count == old(self).tick_count,
    {
        self.theme = Theme::get(kind);
        self.wallpaper = self.theme.render_wallpaper(self.fb.width, self.fb.height);
    }

    /// What a timer tick does on the desktop side: applies a theme change
    /// that is pending in `themes` (taking it), lists the windows whose
    /// applications tick, and counts the tick; the clock is due for a read
    /// every tenth tick.
    pub fn on_tick(&mut self, themes: &mut ThemeState) -> (plan: TickPlan)
        requires
            old(self).wf(),
        ensures
            final(self).wf(),
            final(themes).current == old(themes).current,
            final(themes).pending is None,
            plan.theme_changed == old(themes).pending is Some,
            old(themes).pending matches Some(k) ==> final(self).theme.kind == k
                && final(self).theme.palette_of() == crate::theme::theme_palette(k)
                && final(self).wallpaper@ == wallpaper_pixels(final(self).theme, old(self).fb.width as int, old(self).fb.height as int),
            old(themes).pending is None ==> final(self).theme == old(self).theme && final(self).wallpaper@ == old(self).wallpaper@,
            plan.ticks@ == tick_list(old(self).windows@),
            final(self).tick_count == if old(self).tick_count == usize::MAX { 0 } else { (old(self).tick_count + 1) as usize },
            plan.clock_due == (final(self).tick_count % 10 == 0),
            final(self).state() == old(self).state(),
            final(self).fb == old(self).fb,
            final(self).cursor_saved@ == old(self).cursor_saved@,
            final(self).cursor_saved_x == old(self).cursor_saved_x,
            final(self).cursor_saved_y == old(self).cursor_saved_y,
            final(self).cursor_active == old(self).cursor_active,
            final(self).clock_cache == old(self).clock_cache,
            final(self).last_clock_sec == old(self).last_clock_sec,
    {
        let mut theme_changed = false;
        if let Some(kind) = take_pending_theme(themes) {
            self.apply_theme(kind);
            theme_changed = true;
        }
        let mut ticks: Vec<(usize, bool)> = Vec::new();
        let n = self.windows.len();
        let mut i: usize = 0;
        while i < n
            invariant
                n == self.windows@.len(),
                i <= n,
                ticks@ == tick_list(self.windows@.take(i as int)),
            decreases n - i,
        {
            let w = self.windows[i];
            assert(self.windows@.take(i + 1).drop_last() =~= self.windows@.take(i as int));
            if !w.is_minimized {
                ticks.push((w.id, true));
            } else if w.kind == AppKind::Music {
                ticks.push((w.id, false));
            }
            i = i + 1;
        }
        assert(self.windows@.take(n as int) =~= self.windows@);
        self.tick_count = self.tick_count.wrapping_add(1);
        let clock_due = self.tick_count % 10 == 0;
        TickPlan { theme_changed, ticks, clock_due }
    }

    /// Notes the seconds the clock shows now; returns whether they changed
    /// since last noted (the host then reads the full time).
    pub fn seconds_changed(&mut self, cur_sec: u8) -> (changed: bool)
        ensures
            changed == (cur_sec != old(self).last_clock_sec),
            final(self).last_clock_sec == cur_sec,
            final(self).clock_cache == old(self).clock_cache,
            final(self).state() == old(self).state(),
            final(self).fb == old(self).fb,
            final(self).tick_count == old(self).tick_count,
    {
        if cur_sec != self.last_clock_sec {
            self.last_clock_sec = cur_sec;
            true
        } else {
            false
        }
    }

    /// The time the taskbar clock shows from now on.
    pub fn set_clock(&mut self, t: RtcTime)
        ensures
            final(self).clock_cache == t,
            final(self).last_clock_sec == old(self).last_clock_sec,
            final(self).state() == old(self).state(),
            final(self).fb == old(self).fb,
            final(self).tick_count == old(self).tick_count,
    {
        self.clock_cache = t;
    }

    /// Whether the screen's size suits drawing the whole desktop.
    pub open spec fn drawable(&self) -> bool {
        self.fb.width <= 0x1_0000 && self.fb.height <= 0x1_0000
    }

    /// The first part of a full redraw: the wallpaper, then the shortcuts
    /// with their icons and labels, the one under the pointer at
    /// `(mouse_x, mouse_y)` outlined (exactly the pixels of the wallpaper
    /// painted over with `shortcuts_upto(icons, .., 10)`).
    pub fn render_background(&mut self, mouse_x: isize, mouse_y: isize)
        requires
            old(self).wf(),
            old(self).drawable(),
            old(self).fb.clip is None,
            small(mouse_x as int),
            small(mouse_y as int),
        ensures
            final(self).wf(),
            final(self).fb.same_frame(&old(self).fb),
            final(self).fb.bga == old(self).fb.bga,
            final(self).state() == old(self).state(),
            final(self).wallpaper@ == old(self).wallpaper@,
            final(self).theme == old(self).theme,
            final(self).cursor_saved@ == old(self).cursor_saved@,
            final(self).cursor_saved_x == old(self).cursor_saved_x,
            final(self).cursor_saved_y == old(self).cursor_saved_y,
            final(self).cursor_active == old(self).cursor_active,
            final(self).clock_cache == old(self).clock_cache,
            final(self).tick_count == old(self).tick_count,
            final(self).fb.backbuffer@ == painted(old(self).fb, old(self).wallpaper@,
                shortcuts_upto(old(self).icons@, mouse_x as int, mouse_y as int, 10)),
    {
        let n = self.wallpaper.len();
        let mut i: usize = 0;
        while i < n
            invariant
                self.wf(),
                self.drawable(),
                self.fb.same_frame(&old(self).fb),
                self.fb.bga == old(self).fb.bga,
                self.state() == old(self).state(),
                self.wallpaper@ == old(self).wallpaper@,
                self.theme == old(self).theme,
                self.cursor_saved@ == old(self).cursor_saved@,
                self.cursor_saved_x == old(self).cursor_saved_x,
                self.cursor_saved_y == old(self).cursor_saved_y,
                self.cursor_active == old(self).cursor_active,
                self.clock_cache == old(self).clock_cache,
                self.tick_count == old(self).tick_count,
                n == self.wallpaper@.len(),
                n == self.fb.backbuffer@.len(),
                self.icons == old(self).icons,
                i <= n,
                forall|j: int| 0 <= j < i ==> #[trigger] self.fb.backbuffer@[j] == self.wallpaper@[j],
            decreases n - i,
        {
            let v = self.wallpaper[i];
            self.fb.backbuffer.set(i, v);
            i = i + 1;
        }
        assert(self.fb.backbuffer@ =~= self.wallpaper@);
        let icons = self.icons;
        let ghost mid = self.fb;
        draw_shortcuts(&mut self.fb, &icons, mouse_x, mouse_y);
        proof {
            lemma_painted_frame_only(mid, old(self).fb, mid.backbuffer@, shortcuts_upto(icons@, mouse_x as int, mouse_y as int, 10));
        }
    }

    /// The taskbar of a `w` by `h` screen: its face, the start button
    /// (pressed while the menu is open) with its four-square logo, one tab
    /// per window titled by `titles` (the focused window's tab pressed and
    /// dithered), and the tray with the speaker icon and the clock.
    #[verifier::spinoff_prover]
    #[verifier::rlimit(30)]
    fn render_taskbar(&mut self, titles: &[&str])
        requires
            old(self).wf(),
            old(self).drawable(),
            titles@.len() == old(self).windows@.len(),
        ensures
            final(self).wf(),
            final(self).fb.same_frame(&old(self).fb),
            final(self).fb.bga == old(self).fb.bga,
            final(self).state() == old(self).state(),
            final(self).wallpaper@ == old(self).wallpaper@,
            final(self).cursor_saved@ == old(self).cursor_saved@,
            final(self).cursor_saved_x == old(self).cursor_saved_x,
            final(self).cursor_saved_y == old(self).cursor_saved_y,
            final(self).cursor_active == old(self).cursor_active,
            final(self).theme == old(self).theme,
            final(self).clock_cache == old(self).clock_cache,
            final(self).tick_count == old(self).tick_count,
            final(self).fb.backbuffer@ == painted(old(self).fb, old(self).fb.backbuffer@, taskbar_scene(
                old(self).fb.width as int, old(self).fb.height as int, old(self).start_menu_open, old(self).windows@,
                titles@, old(self).clock_cache)),
    {
        let ghost fb0 = self.fb;
        let w = self.fb.width;
        let ty = (self.fb.height - TASKBAR_HEIGHT) as isize;
        draw_taskbar_head(&mut self.fb, w, ty, self.start_menu_open);
        let ghost head = taskbar_head(w as int, ty as int, self.start_menu_open);
        let tray_x: isize = if w as isize - 124 > 100 { w as isize - 124 } else { 100 };
        let room: usize = if tray_x - 78 > 60 { (tray_x - 78) as usize } else { 60 };
        let n = self.windows.len();
        let per = room / (if n > 1 { n } else { 1 });
        let raw = if per >= 4 { per - 4 } else { 0 };
        let tab_w: isize = if raw < 60 { 60 } else if raw > 140 { 140 } else { raw as isize };
        assert(tab_w == drawn_tab_width(w as int, n as int));
        let mut tab_x: isize = 78;
        let mut i: usize = 0;
        while i < n && tab_x <= w as isize
            invariant
                self.wf(),
                self.drawable(),
                self.fb.same_frame(&fb0),
                self.fb.bga == fb0.bga,
                fb0 == old(self).fb,
                self.state() == old(self).state(),
                self.wallpaper@ == old(self).wallpaper@,
                self.cursor_saved@ == old(self).cursor_saved@,
                self.cursor_saved_x == old(self).cursor_saved_x,
                self.cursor_saved_y == old(self).cursor_saved_y,
                self.cursor_active == old(self).cursor_active,
                self.theme == old(self).theme,
                self.clock_cache == old(self).clock_cache,
                self.tick_count == old(self).tick_count,
                n == self.windows@.len(),
                titles@.len() == n,
                w == self.fb.width,
                ty == self.fb.height - 28,
                60 <= tab_w <= 140,
                78 <= tab_x <= w + 145,
                tab_x == 78 + i * (tab_w + 4),
                i <= n,
                tabs_shown_from(n as int, w as int, tab_w as int, 0) == tabs_shown_from(n as int, w as int, tab_w as int, i as int),
                self.fb.backbuffer@ == painted(fb0, fb0.backbuffer@, head + tabs_upto(self.windows@, titles@, ty as int, tab_w as int, i as int)),
            decreases n - i,
        {
            let win = self.windows[i];
            let ghost mid = self.fb;
            draw_tab(&mut self.fb, win, titles[i], tab_x, ty, tab_w);
            proof {
                lemma_paint_seq(fb0, mid, head + tabs_upto(self.windows@, titles@, ty as int, tab_w as int, i as int),
                    tab_shapes(win, titles@[i as int]@, tab_x as int, ty as int, tab_w as int));
                assert(head + tabs_upto(self.windows@, titles@, ty as int, tab_w as int, i as int)
                    + tab_shapes(win, titles@[i as int]@, tab_x as int, ty as int, tab_w as int)
                    =~= head + tabs_upto(self.windows@, titles@, ty as int, tab_w as int, i + 1));
                assert((i + 1) * (tab_w + 4) == i * (tab_w + 4) + tab_w + 4) by (nonlinear_arith);
            }
            tab_x = tab_x + tab_w + 4;
            i = i + 1;
        }
        let ghost drawn = head + tabs_upto(self.windows@, titles@, ty as int, tab_w as int, i as int);
        let ghost mid = self.fb;
        draw_tray(&mut self.fb, tray_x, ty, self.clock_cache);
        proof {
            lemma_paint_seq(fb0, mid, drawn, tray_scene(tray_x as int, ty as int, self.clock_cache));
            assert(drawn + tray_scene(tray_x as int, ty as int, self.clock_cache) =~= taskbar_scene(
                old(self).fb.width as int, old(self).fb.height as int, old(self).start_menu_open, old(self).windows@,
                titles@, old(self).clock_cache));
        }
    }

    /// The open start menu over the taskbar: raised box, the blue banner
    /// with the vertical lettering, and the eleven entries with their icons
    /// (the one under the pointer highlighted; a groove before "Shut
    /// Down...").
    fn render_start_menu(&mut self, mouse_x: isize, mouse_y: isize)
        requires
            old(self).wf(),
            old(self).drawable(),
            small(mouse_x as int),
            small(mouse_y as int),
        ensures
            final(self).wf(),
            final(self).fb.same_frame(&old(self).fb),
            final(self).fb.bga == old(self).fb.bga,
            final(self).state() == old(self).state(),
            final(self).wallpaper@ == old(self).wallpaper@,
            final(self).cursor_saved@ == old(self).cursor_saved@,
            final(self).cursor_saved_x == old(self).cursor_saved_x,
            final(self).cursor_saved_y == old(self).cursor_saved_y,
            final(self).cursor_active == old(self).cursor_active,
            final(self).theme == old(self).theme,
            final(self).clock_cache == old(self).clock_cache,
            final(self).tick_count == old(self).tick_count,
            final(self).fb.backbuffer@ == painted(old(self).fb, old(self).fb.backbuffer@,
                start_menu_scene(old(self).fb.height - 28, mouse_x as int, mouse_y as int)),
    {
        let ty = (self.fb.height - TASKBAR_HEIGHT) as isize;
        draw_start_menu(&mut self.fb, ty, mouse_x, mouse_y);
    }

    /// The last part of a full redraw, after the windows: the taskbar (tabs
    /// titled by `titles`, one per window), the start menu when open, and the
    /// pointer at `(mouse_x, mouse_y)` with the background under it saved
    /// (exactly the pixels of `foreground_scene`); then the whole back
    /// buffer is presented.
    pub fn render_foreground(&mut self, titles: &[&str], mouse_x: isize, mouse_y: isize)
        requires
            old(self).wf(),
            old(self).drawable(),
            titles@.len() == old(self).windows@.len(),
            small(mouse_x as int),
            small(mouse_y as int),
        ensures
            final(self).wf(),
            final(self).fb.width == old(self).fb.width,
            final(self).fb.height == old(self).fb.height,
            final(self).fb.clip == old(self).fb.clip,
            final(self).fb.bga.screen@ == final(self).fb.backbuffer@,
            final(self).state() == old(self).state(),
            final(self).cursor_active,
            final(self).cursor_saved_x == mouse_x,
            final(self).cursor_saved_y == mouse_y,
            final(self).wallpaper@ == old(self).wallpaper@,
            final(self).theme == old(self).theme,
            final(self).clock_cache == old(self).clock_cache,
            final(self).tick_count == old(self).tick_count,
            final(self).fb.backbuffer@ == painted(old(self).fb, old(self).fb.backbuffer@, foreground_scene(
                old(self).fb.width as int, old(self).fb.height as int, old(self).start_menu_open, old(self).windows@,
                titles@, old(self).clock_cache, mouse_x as int, mouse_y as int)),
    {
        let ghost fb0 = self.fb;
        let ghost tb = taskbar_scene(self.fb.width as int, self.fb.height as int, self.start_menu_open, self.windows@,
            titles@, self.clock_cache);
        self.render_taskbar(titles);
        let ghost mut drawn = tb;
        if self.start_menu_open {
            let ghost mid = self.fb;
            self.render_start_menu(mouse_x, mouse_y);
            proof {
                lemma_paint_seq(fb0, mid, drawn, start_menu_scene(fb0.height - 28, mouse_x as int, mouse_y as int));
                drawn = drawn + start_menu_scene(fb0.height - 28, mouse_x as int, mouse_y as int);
            }
        } else {
            assert(drawn =~= drawn + Seq::<ShapeV>::empty());
        }
        self.save_cursor_bg(mouse_x, mouse_y);
        let ghost mid = self.fb;
        self.fb.draw_cursor(mouse_x, mouse_y);
        proof {
            lemma_paint_step(fb0, mid, drawn, ShapeV::Pointer { x: mouse_x as int, y: mouse_y as int });
            assert(drawn.push(ShapeV::Pointer { x: mouse_x as int, y: mouse_y as int }) =~= foreground_scene(
                fb0.width as int, fb0.height as int, old(self).start_menu_open, old(self).windows@,
                titles@, old(self).clock_cache, mouse_x as int, mouse_y as int));
        }
        self.fb.flush();
    }

    /// Opens a window of `kind` at `(x, y)`, `w` by `h`, in front of the
    /// others and focused; returns its id.
    pub fn spawn_window(&mut self, kind: AppKind, x: isize, y: isize, w: usize, h: usize) -> (id: usize)
        requires
            old(self).wf(),
            old(self).next_window_id < usize::MAX,
            small(x as int),
            small(y as int),
            w <= 0x1000_0000,
            h <= 0x1000_0000,
        ensures
            final(self).wf(),
            id == old(self).next_window_id,
            final(self).state() == with_spawned(old(self).state(), kind, x, y, w, h),
            final(self).same_rest(old(self)),
    {
        proof {
            lemma_spawn_keeps_stack(self.windows@, self.next_window_id,
                Window { id: self.next_window_id, x, y, width: w, height: h, is_minimized: false, is_focused: true, kind });
        }
        self.spawn(kind, x, y, w, h)
    }

    /// Brings window `idx` (back to front) to the front, shown and focused;
    /// nothing happens if there is no such window.
    pub fn raise_window(&mut self, idx: usize)
        requires
            old(self).wf(),
            old(self).dragging_window_idx is None,
        ensures
            final(self).wf(),
            final(self).state() == (DeskState { windows: raised(old(self).windows@, idx as int), ..old(self).state() }),
            final(self).same_rest(old(self)),
    {
        proof {
            lemma_raise_keeps_stack(self.windows@, self.next_window_id, idx as int);
        }
        self.focus_window_at_index(idx);
    }

    /// A press on the taskbar at `x`.
    #[verifier::spinoff_prover]
    #[verifier::rlimit(30)]
    fn press_taskbar(&mut self, x: isize)
        requires
            old(self).wf(),
            old(self).dragging_window_idx is None,
            small(x as int),
        ensures
            final(self).wf(),
            final(self).state() == taskbar_press(old(self).state(), old(self).fb.width as int, x as int),
            final(self).same_rest(old(self)),
    {
        if x >= 3 && x <= 73 {
            self.start_menu_open = !self.start_menu_open;
            return;
        }
        let n = self.windows.len();
        let tray_x: isize = if self.fb.width as isize - 124 > 100 { self.fb.width as isize - 124 } else { 100 };
        let room: usize = if tray_x - 77 > 60 { (tray_x - 77) as usize } else { 60 };
        let per = room / (if n > 1 { n } else { 1 });
        let raw = if per >= 4 { per - 4 } else { 0 };
        let tab_w: isize = if raw < 60 { 60 } else if raw > 140 { 140 } else { raw as isize };
        assert(tab_w == tab_width(self.fb.width as int, n as int));
        let ghost tw = tab_w as int;
        let mut tab_x: isize = 77;
        let mut i: usize = 0;
        while i < n && tab_x <= x
            invariant
                n == self.windows@.len(),
                i <= n,
                small(x as int),
                tab_x <= 77 || tab_x <= x + 145,
                self.wf(),
                self.dragging_window_idx is None,
                self.state() == old(self).state(),
                self.same_rest(old(self)),
                self.fb.width == old(self).fb.width,
                tw == tab_width(old(self).fb.width as int, n as int),
                !(3 <= x <= 73),
                tw == tab_w as int,
                60 <= tab_w <= 140,
                tab_hit_from(x as int, 77, tw, 0, n as int) == tab_hit_from(x as int, tab_x as int, tw, i as int, n as int),
            decreases n - i,
        {
            if x >= tab_x && x < tab_x + tab_w {
                if self.windows[i].is_focused && !self.windows[i].is_minimized {
                    let mut w = self.windows[i];
                    w.is_minimized = true;
                    w.is_focused = false;
                    proof {
                        lemma_update_keeps_stack(self.windows@, self.next_window_id, i as int, w);
                    }
                    self.windows.set(i, w);
                } else {
                    proof {
                        lemma_raise_keeps_stack(self.windows@, self.next_window_id, i as int);
                    }
                    self.focus_window_at_index(i);
                }
                self.start_menu_open = false;
                return;
            }
            tab_x = tab_x + tab_w + 4;
            i = i + 1;
        }
        proof {
            if tab_x > x {
                lemma_tabs_past(x as int, tab_x as int, tw, i as int, n as int);
            }
        }
    }

    /// A press at `(x, y)` while the start menu is open.
    #[verifier::spinoff_prover]
    #[verifier::rlimit(30)]
    fn press_menu(&mut self, x: isize, y: isize) -> (a: DesktopAction)
        requires
            old(self).wf(),
            old(self).dragging_window_idx is None,
            old(self).next_window_id < usize::MAX,
            small(x as int),
            small(y as int),
        ensures
            final(self).wf(),
            (final(self).state(), a) == menu_press(old(self).state(), old(self).fb.height as int, x as int, y as int),
            final(self).same_rest(old(self)),
    {
        let menu_y: isize = (self.fb.height - TASKBAR_HEIGHT) as isize - 276;
        let mut action = DesktopAction::Nothing;
        if x >= 2 && x < 212 && y >= menu_y && y < menu_y + 276 {
            let rel_y = y - (menu_y + 4);
            if rel_y >= 0 {
                let item = (rel_y / 24) as usize;
                if item <= 9 {
                    let kind = kind_from_id(item);
                    let g = geometry_of(kind);
                    let id = self.spawn_window(kind, g.0, g.1, g.2, g.3);
                    action = DesktopAction::Spawned { kind, id };
                } else if item == 10 {
                    action = DesktopAction::Reboot;
                }
            }
        }
        self.start_menu_open = false;
        action
    }

    /// A press at `(x, y)` on window `i`, the frontmost one there.
    #[verifier::spinoff_prover]
    #[verifier::rlimit(40)]
    fn press_window(&mut self, i: usize, x: isize, y: isize) -> (a: DesktopAction)
        requires
            old(self).wf(),
            old(self).dragging_window_idx is None,
            i < old(self).windows@.len(),
            small(x as int),
            small(y as int),
        ensures
            final(self).wf(),
            (final(self).state(), a) == window_press(old(self).state(), i as int, x as int, y as int),
            final(self).same_rest(old(self)),
    {
        let w = self.windows[i];
        if w.is_over_close_button(x, y) {
            proof {
                lemma_remove_keeps_stack(self.windows@, self.next_window_id, i as int);
            }
            self.windows.remove(i);
            return DesktopAction::Closed { id: w.id };
        }
        if w.is_over_minimize_button(x, y) {
            let mut m = w;
            m.is_minimized = true;
            m.is_focused = false;
            proof {
                lemma_update_keeps_stack(self.windows@, self.next_window_id, i as int, m);
            }
            self.windows.set(i, m);
            return DesktopAction::Nothing;
        }
        proof {
            lemma_raise_keeps_stack(self.windows@, self.next_window_id, i as int);
        }
        if w.is_over_titlebar(x, y) {
            self.focus_window_at_index(i);
            let top = self.windows.len() - 1;
            self.dragging_window_idx = Some(top);
            self.drag_offset_x = x - self.windows[top].x;
            self.drag_offset_y = y - self.windows[top].y;
            return DesktopAction::Nothing;
        }
        self.focus_window_at_index(i);
        let top = self.windows.len() - 1;
        let (cx, cy, _, _) = self.windows[top].client_bounds();
        DesktopAction::Click { id: self.windows[top].id, local_x: x - cx, local_y: y - cy }
    }

    /// A fresh left press at `(x, y)`.
    fn press_at(&mut self, x: isize, y: isize) -> (r: (bool, DesktopAction))
        requires
            old(self).wf(),
            old(self).dragging_window_idx is None,
            old(self).next_window_id < usize::MAX,
            small(x as int),
            small(y as int),
        ensures
            final(self).wf(),
            (final(self).state(), r.0, r.1) == press(old(self).state(), old(self).fb.width as int, old(self).fb.height as int, x as int, y as int),
            final(self).same_rest(old(self)),
    {
        let taskbar_y = (self.fb.height - TASKBAR_HEIGHT) as isize;
        if y >= taskbar_y {
            self.press_taskbar(x);
            return (true, DesktopAction::Nothing);
        }
        if self.start_menu_open {
            let a = self.press_menu(x, y);
            return (true, a);
        }
        let n = self.windows.len();
        let mut i = n;
        while i > 0
            invariant
                n == self.windows@.len(),
                i <= n,
                self.wf(),
                small(x as int),
                small(y as int),
                !self.start_menu_open,
                (y as int) < old(self).fb.height - 28,
                self.dragging_window_idx is None,
                self.next_window_id < usize::MAX,
                self.state() == old(self).state(),
                self.same_rest(old(self)),
                hit_below(self.windows@, n as int, x as int, y as int) == hit_below(self.windows@, i as int, x as int, y as int),
            decreases i,
        {
            i = i - 1;
            if self.windows[i].contains(x, y) {
                let a = self.press_window(i, x, y);
                return (true, a);
            }
        }
        let mut k: usize = 0;
        while k < 10
            invariant
                k <= 10,
                self.wf(),
                small(x as int),
                small(y as int),
                self.next_window_id < usize::MAX,
                self.state() == old(self).state(),
                self.same_rest(old(self)),
                hit_below(self.windows@, self.windows@.len() as int, x as int, y as int) is None,
                !self.start_menu_open,
                (y as int) < old(self).fb.height - 28,
                icon_hit_from(x as int, y as int, 0) == icon_hit_from(x as int, y as int, k as int),
            decreases 10 - k,
        {
            let icon = self.icons[k];
            assert(self.icons@[k as int].x == icon_x(k as int));
            assert(icon.x == icon_x(k as int) && icon.y == icon_y(k as int) && icon.app_id == k);
            if x >= icon.x && x < icon.x + 56 && y >= icon.y && y < icon.y + 60 {
                let kind = kind_from_id(icon.app_id);
                let g = geometry_of(kind);
                let id = self.spawn_window(kind, g.0, g.1, g.2, g.3);
                return (true, DesktopAction::Spawned { kind, id });
            }
            k = k + 1;
        }
        (false, DesktopAction::Nothing)
    }

    /// Moves the dragged window `idx` along with the pointer at `(px, py)`,
    /// keeping its top on the screen above the taskbar.
    fn drag_window(&mut self, idx: usize, px: isize, py: isize)
        requires
            old(self).wf(),
            small(py as int),
            small(px - old(self).drag_offset_x),
        ensures
            final(self).wf(),
            final(self).state() == (DeskState {
                windows: if idx < old(self).windows@.len() {
                    old(self).windows@.update(idx as int, moved(old(self).windows@[idx as int], (px - old(self).drag_offset_x) as isize,
                        clamped(py - old(self).drag_offset_y, 0, old(self).fb.height - 48) as isize))
                } else {
                    old(self).windows@
                },
                ..old(self).state()
            }),
            final(self).same_rest(old(self)),
    {
        if idx < self.windows.len() {
            let mut win = self.windows[idx];
            win.x = px - self.drag_offset_x;
            let max_y = (self.fb.height - TASKBAR_HEIGHT - 20) as isize;
            let ny = py - self.drag_offset_y;
            win.y = if ny < 0 { 0 } else if ny > max_y { max_y } else { ny };
            proof {
                lemma_update_keeps_stack(self.windows@, self.next_window_id, idx as int, win);
            }
            self.windows.set(idx, win);
        }
    }

    /// Records the state of the left button.
    fn note_left_button(&mut self, pressed: bool)
        requires
            old(self).wf(),
        ensures
            final(self).wf(),
            final(self).state() == (DeskState { prev_left: pressed, ..old(self).state() }),
            final(self).same_rest(old(self)),
    {
        self.prev_left_pressed = pressed;
    }

    /// Lets go of the dragged window.
    fn end_drag(&mut self)
        requires
            old(self).wf(),
        ensures
            final(self).wf(),
            final(self).state() == (DeskState { dragging: None, ..old(self).state() }),
            final(self).same_rest(old(self)),
    {
        self.dragging_window_idx = None;
    }

    /// Handles one mouse report; returns whether the screen needs a full
    /// redraw and what the host has to do.
    #[verifier::spinoff_prover]
    pub fn handle_mouse_event(&mut self, ev: MouseEvent) -> (r: (bool, DesktopAction))
        requires
            old(self).wf(),
            small(ev.x as int),
            small(ev.y as int),
            old(self).next_window_id < usize::MAX,
            old(self).dragging_window_idx is Some && ev.left_pressed ==> small(ev.x - old(self).drag_offset_x),
        ensures
            final(self).wf(),
            (final(self).state(), r.0, r.1) == mouse_step(old(self).state(), old(self).fb.width as int, old(self).fb.height as int, ev),
            final(self).same_rest(old(self)),
    {
        let left_just_pressed = ev.left_pressed && !self.prev_left_pressed;
        self.note_left_button(ev.left_pressed);
        if let Some(win_idx) = self.dragging_window_idx {
            if ev.left_pressed {
                self.drag_window(win_idx, ev.x, ev.y);
            } else {
                self.end_drag();
            }
            return (true, DesktopAction::Nothing);
        }
        if !left_just_pressed {
            return (false, DesktopAction::Nothing);
        }
        self.press_at(ev.x, ev.y)
    }

    /// Puts back the background saved under the pointer, if any.
    fn restore_cursor_bg(&mut self)
        requires
            old(self).wf(),
        ensures
            final(self).wf(),
            final(self).fb.same_frame(&old(self).fb),
            final(self).fb.bga == old(self).fb.bga,
            final(self).fb.backbuffer@ == if old(self).cursor_active {
                put_back(old(self).fb.backbuffer@, old(self).cursor_saved@, old(self).fb.width as int,
                    old(self).cursor_saved_x as int, old(self).cursor_saved_y as int)
            } else {
                old(self).fb.backbuffer@
            },
            !final(self).cursor_active,
            final(self).state() == old(self).state(),
            final(self).cursor_saved@ == old(self).cursor_saved@,
            final(self).cursor_saved_x == old(self).cursor_saved_x,
            final(self).cursor_saved_y == old(self).cursor_saved_y,
            final(self).wallpaper@ == old(self).wallpaper@,
            final(self).icons@ == old(self).icons@,
            final(self).theme == old(self).theme,
            final(self).clock_cache == old(self).clock_cache,
            final(self).last_clock_sec == old(self).last_clock_sec,
            final(self).tick_count == old(self).tick_count,
    {
        if !self.cursor_active {
            return;
        }
        let w = self.fb.width;
        let h = self.fb.height;
        let sx = self.cursor_saved_x;
        let sy = self.cursor_saved_y;
        let ghost orig = self.fb.backbuffer@;
        let ghost saved = self.cursor_saved@;
        assert(self.fb.backbuffer@ =~= put_back_upto(orig, saved, w as int, sx as int, sy as int, 0));
        let mut k: usize = 0;
        while k < 576
            invariant
                self.wf(),
                self.fb.same_frame(&old(self).fb),
                self.fb.bga == old(self).fb.bga,
                w == self.fb.width,
                h == self.fb.height,
                sx == self.cursor_saved_x,
                sy == self.cursor_saved_y,
                saved == self.cursor_saved@,
                orig == old(self).fb.backbuffer@,
                self.state() == old(self).state(),
                self.cursor_saved@ == old(self).cursor_saved@,
                self.cursor_saved_x == old(self).cursor_saved_x,
                self.cursor_saved_y == old(self).cursor_saved_y,
                self.cursor_active == old(self).cursor_active,
                self.wallpaper@ == old(self).wallpaper@,
                self.icons@ == old(self).icons@,
                self.theme == old(self).theme,
                self.clock_cache == old(self).clock_cache,
                self.last_clock_sec == old(self).last_clock_sec,
                self.tick_count == old(self).tick_count,
                k <= 576,
                self.fb.backbuffer@ == put_back_upto(orig, saved, w as int, sx as int, sy as int, k as int),
            decreases 576 - k,
        {
            let cy = k / 24;
            let cx = k % 24;
            let py = sy + cy as isize;
            let px = sx + cx as isize;
            let ghost target = put_back_upto(orig, saved, w as int, sx as int, sy as int, k + 1);
            proof {
                assert(cy * 24 + cx == k);
            }
            if py >= 0 && py < h as isize && px >= 0 && px < w as isize {
                proof {
                    lemma_pixel_index(py as int, px as int, w as int, h as int);
                }
                let idx = py as usize * w + px as usize;
                let v = self.cursor_saved[k];
                self.fb.backbuffer.set(idx, v);
                assert forall|i: int| 0 <= i < self.fb.backbuffer@.len() implies #[trigger] self.fb.backbuffer@[i] == target[i] by {
                    lemma_index_split(i, w as int, h as int);
                    let cc = i % (w as int);
                    let rr = i / (w as int);
                    if in_rect(sx as int, sy as int, 24, 24, cc, rr) {
                        lemma_pixel_index(rr - sy, cc - sx, 24, 24);
                    }
                    if i != idx && rr == py && cc == px {
                        assert(i == py * w + px);
                    }
                }
            } else {
                assert forall|i: int| 0 <= i < self.fb.backbuffer@.len() implies #[trigger] self.fb.backbuffer@[i] == target[i] by {
                    lemma_index_split(i, w as int, h as int);
                    let cc = i % (w as int);
                    let rr = i / (w as int);
                    if in_rect(sx as int, sy as int, 24, 24, cc, rr) {
                        lemma_pixel_index(rr - sy, cc - sx, 24, 24);
                    }
                }
            }
            assert(self.fb.backbuffer@ =~= target);
            k = k + 1;
        }
        self.cursor_active = false;
    }

    /// Saves the 24 by 24 background at `(x, y)` before the pointer is drawn
    /// there.
    fn save_cursor_bg(&mut self, x: isize, y: isize)
        requires
            old(self).wf(),
            small(x as int),
            small(y as int),
        ensures
            final(self).wf(),
            final(self).fb == old(self).fb,
            final(self).cursor_saved@ == saved_under(old(self).fb.backbuffer@, old(self).fb.width as int,
                old(self).fb.height as int, x as int, y as int),
            final(self).cursor_saved_x == x,
            final(self).cursor_saved_y == y,
            final(self).cursor_active,
            final(self).state() == old(self).state(),
            final(self).wallpaper@ == old(self).wallpaper@,
            final(self).icons@ == old(self).icons@,
            final(self).theme == old(self).theme,
            final(self).clock_cache == old(self).clock_cache,
            final(self).last_clock_sec == old(self).last_clock_sec,
            final(self).tick_count == old(self).tick_count,
    {
        let w = self.fb.width;
        let h = self.fb.height;
        let ghost target = saved_under(self.fb.backbuffer@, w as int, h as int, x as int, y as int);
        let mut k: usize = 0;
        while k < 576
            invariant
                self.wf(),
                self.fb == old(self).fb,
                w == self.fb.width,
                h == self.fb.height,
                target == saved_under(self.fb.backbuffer@, w as int, h as int, x as int, y as int),
                small(x as int),
                small(y as int),
                self.state() == old(self).state(),
                self.cursor_saved_x == old(self).cursor_saved_x,
                self.cursor_saved_y == old(self).cursor_saved_y,
                self.wallpaper@ == old(self).wallpaper@,
                self.icons@ == old(self).icons@,
                self.theme == old(self).theme,
                self.clock_cache == old(self).clock_cache,
                self.last_clock_sec == old(self).last_clock_sec,
                self.tick_count == old(self).tick_count,
                k <= 576,
                forall|j: int| 0 <= j < k ==> #[trigger] self.cursor_saved@[j] == target[j],
            decreases 576 - k,
        {
            let cy = k / 24;
            let cx = k % 24;
            let py = y + cy as isize;
            let px = x + cx as isize;
            let v = if px >= 0 && px < w as isize && py >= 0 && py < h as isize {
                proof {
                    lemma_pixel_index(py as int, px as int, w as int, h as int);
                }
                self.fb.backbuffer[py as usize * w + px as usize]
            } else {
                0
            };
            self.cursor_saved.set(k, v);
            k = k + 1;
        }
        assert(self.cursor_saved@ =~= target);
        self.cursor_saved_x = x;
        self.cursor_saved_y = y;
        self.cursor_active = true;
    }

    /// Presents the 24 by 24 box at `(rx, ry)`, cut to the screen.
    fn flush_box(&mut self, rx: isize, ry: isize)
        requires
            old(self).wf(),
            small(rx as int),
            small(ry as int),
        ensures
            final(self).wf(),
            final(self).fb.width == old(self).fb.width,
            final(self).fb.height == old(self).fb.height,
            final(self).fb.clip == old(self).fb.clip,
            final(self).fb.backbuffer@ == old(self).fb.backbuffer@,
            final(self).fb.bga.phys_addr == old(self).fb.bga.phys_addr,
            final(self).fb.bga.bpp == old(self).fb.bga.bpp,
            final(self).fb.bga.screen@ == box_flushed(old(self).fb.bga.screen@, old(self).fb.backbuffer@,
                old(self).fb.width as int, old(self).fb.height as int, rx as int, ry as int),
            final(self).state() == old(self).state(),
            final(self).cursor_saved@ == old(self).cursor_saved@,
            final(self).cursor_saved_x == old(self).cursor_saved_x,
            final(self).cursor_saved_y == old(self).cursor_saved_y,
            final(self).cursor_active == old(self).cursor_active,
            final(self).wallpaper@ == old(self).wallpaper@,
            final(self).icons@ == old(self).icons@,
            final(self).theme == old(self).theme,
            final(self).clock_cache == old(self).clock_cache,
            final(self).last_clock_sec == old(self).last_clock_sec,
            final(self).tick_count == old(self).tick_count,
    {
        let w = self.fb.width as isize;
        let h = self.fb.height as isize;
        let x0 = if rx < 0 { 0 } else if rx > w { w } else { rx };
        let y0 = if ry < 0 { 0 } else if ry > h { h } else { ry };
        let x1 = if rx + 24 < 0 { 0 } else if rx + 24 > w { w } else { rx + 24 };
        let y1 = if ry + 24 < 0 { 0 } else if ry + 24 > h { h } else { ry + 24 };
        if x1 > x0 && y1 > y0 {
            self.fb.flush_rect(x0 as usize, y0 as usize, (x1 - x0) as usize, (y1 - y0) as usize);
            assert(self.fb.bga.screen@ =~= box_flushed(old(self).fb.bga.screen@, old(self).fb.backbuffer@,
                old(self).fb.width as int, old(self).fb.height as int, rx as int, ry as int));
        }
    }

    /// Moves the pointer to `(new_x, new_y)` without a full redraw: puts back
    /// the background under the old pointer, saves the one under the new
    /// place, draws the pointer there and presents both boxes. Nothing
    /// happens if the pointer is already shown there.
    pub fn update_cursor_fast(&mut self, new_x: isize, new_y: isize)
        requires
            old(self).wf(),
            small(new_x as int),
            small(new_y as int),
        ensures
            final(self).wf(),
            final(self).state() == old(self).state(),
            final(self).fb.width == old(self).fb.width,
            final(self).fb.height == old(self).fb.height,
            final(self).fb.clip == old(self).fb.clip,
            old(self).cursor_active && old(self).cursor_saved_x == new_x && old(self).cursor_saved_y == new_y
                ==> *final(self) == *old(self),
            !(old(self).cursor_active && old(self).cursor_saved_x == new_x && old(self).cursor_saved_y == new_y) ==> {
                let w = old(self).fb.width as int;
                let h = old(self).fb.height as int;
                let under = if old(self).cursor_active {
                    put_back(old(self).fb.backbuffer@, old(self).cursor_saved@, w,
                        old(self).cursor_saved_x as int, old(self).cursor_saved_y as int)
                } else {
                    old(self).fb.backbuffer@
                };
                let shown = old(self).fb.cursor_pixels_upto(under, new_x as int, new_y as int, 272);
                &&& final(self).cursor_saved@ == saved_under(under, w, h, new_x as int, new_y as int)
                &&& final(self).cursor_saved_x == new_x
                &&& final(self).cursor_saved_y == new_y
                &&& final(self).cursor_active
                &&& final(self).fb.backbuffer@ == shown
                &&& final(self).fb.bga.screen@ == box_flushed(
                    box_flushed(old(self).fb.bga.screen@, shown, w, h, old(self).cursor_saved_x as int, old(self).cursor_saved_y as int),
                    shown, w, h, new_x as int, new_y as int)
            },
    {
        let old_x = self.cursor_saved_x;
        let old_y = self.cursor_saved_y;
        if old_x == new_x && old_y == new_y && self.cursor_active {
            return;
        }
        self.restore_cursor_bg();
        let ghost under = self.fb.backbuffer@;
        let ghost fb0 = self.fb;
        self.save_cursor_bg(new_x, new_y);
        self.fb.draw_cursor(new_x, new_y);
        assert(self.fb.backbuffer@ == old(self).fb.cursor_pixels_upto(under, new_x as int, new_y as int, 272));
        self.flush_box(old_x, old_y);
        self.flush_box(new_x, new_y);
    }

    /// Opens a focused window of `kind` in front of the others and returns
    /// its id.
    fn spawn(&mut self, kind: AppKind, x: isize, y: isize, w: usize, h: usize) -> (id: usize)
        requires
            old(self).next_window_id < usize::MAX,
        ensures
            id == old(self).next_window_id,
            final(self).state() == with_spawned(old(self).state(), kind, x, y, w, h),
            final(self).same_rest(old(self)),
    {
        let id = self.next_window_id;
        self.next_window_id = self.next_window_id + 1;
        let mut win = Window::new(id, x, y, w, h, kind);
        win.is_focused = true;
        self.unfocus_all();
        self.windows.push(win);
        id
    }
}

} // verus!
