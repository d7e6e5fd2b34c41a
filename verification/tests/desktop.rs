use mouros::bga::BgaDevice;
use mouros::desktop::{Desktop, DesktopAction};
use mouros::framebuffer::Framebuffer;
use mouros::icons::AppIcon;
use mouros::mouse::MouseEvent;
use mouros::rtc::RtcTime;
use mouros::theme::{set_theme, ThemeKind, ThemeState};
use mouros::window::{icon_from_title, AppKind, Window};

fn clock() -> RtcTime {
    RtcTime { hours: 10, minutes: 20, seconds: 30, year: 2024, month: 5, day: 6 }
}

fn desktop() -> Desktop {
    Desktop::new(Framebuffer::new(BgaDevice::new(800, 600, 0)), clock())
}

fn ev(x: isize, y: isize, left: bool) -> MouseEvent {
    MouseEvent { x, y, dx: 0, dy: 0, left_pressed: left, right_pressed: false }
}

fn click(d: &mut Desktop, x: isize, y: isize) -> (bool, DesktopAction) {
    let r = d.handle_mouse_event(ev(x, y, true));
    d.handle_mouse_event(ev(x, y, false));
    r
}

fn ids(d: &Desktop) -> Vec<usize> {
    d.windows.iter().map(|w| w.id).collect()
}

#[test]
fn desktop_opens_with_four_windows() {
    let d = desktop();
    assert_eq!(ids(&d), vec![1, 2, 4, 3]);
    let kinds: Vec<AppKind> = d.windows.iter().map(|w| w.kind).collect();
    assert_eq!(kinds, vec![AppKind::SysInfo, AppKind::Terminal, AppKind::Settings, AppKind::Music]);
    assert!(d.windows[2].is_minimized);
    assert!(d.windows[3].is_focused && !d.windows[3].is_minimized);
    assert_eq!(d.windows.iter().filter(|w| w.is_focused).count(), 1);
    assert_eq!(d.next_window_id, 5);
    assert_eq!(d.theme.kind, ThemeKind::Windows98);
    assert_eq!(d.wallpaper.len(), 800 * 600);
    assert_eq!(d.handle_key_event(), Some(3));
    assert_eq!(d.last_clock_sec, 30);
}

#[test]
fn start_menu_opens_and_spawns() {
    let mut d = desktop();
    assert_eq!(click(&mut d, 10, 590), (true, DesktopAction::Nothing));
    assert!(d.start_menu_open);
    // First entry: 4 pixels below the menu's top at 600 - 28 - 276.
    let r = click(&mut d, 50, 305);
    assert_eq!(r, (true, DesktopAction::Spawned { kind: AppKind::Terminal, id: 5 }));
    assert!(!d.start_menu_open);
    let w = *d.windows.last().unwrap();
    assert_eq!((w.id, w.x, w.y, w.width, w.height), (5, 140, 80, 480, 270));
    assert!(w.is_focused);
    assert_eq!(d.windows.iter().filter(|w| w.is_focused).count(), 1);
    assert_eq!(d.handle_key_event(), Some(5));
}

#[test]
fn start_menu_shut_down_and_outside_click() {
    let mut d = desktop();
    click(&mut d, 10, 590);
    // Entry 10 lies 244 to 268 pixels below the menu's top.
    assert_eq!(click(&mut d, 50, 296 + 4 + 10 * 24 + 5), (true, DesktopAction::Reboot));
    assert!(!d.start_menu_open);
    click(&mut d, 10, 590);
    assert_eq!(click(&mut d, 700, 100), (true, DesktopAction::Nothing));
    assert!(!d.start_menu_open);
    assert_eq!(ids(&d), vec![1, 2, 4, 3]);
}

#[test]
fn close_and_minimize_buttons() {
    let mut d = desktop();
    // The music window (15, 20, 365 wide) is in front.
    assert_eq!(click(&mut d, 15 + 365 - 38 + 3, 26), (true, DesktopAction::Nothing));
    let music = d.windows[3];
    assert!(music.is_minimized && !music.is_focused);
    assert_eq!(d.handle_key_event(), None);
    // Close the system monitor (390, 15, 395 wide).
    assert_eq!(click(&mut d, 390 + 395 - 20 + 3, 21), (true, DesktopAction::Closed { id: 1 }));
    assert_eq!(ids(&d), vec![2, 4, 3]);
}

#[test]
fn title_bar_drag_moves_the_window() {
    let mut d = desktop();
    assert_eq!(d.handle_mouse_event(ev(400, 25, true)), (true, DesktopAction::Nothing));
    assert_eq!(d.windows.last().unwrap().id, 1);
    assert_eq!(d.dragging_window_idx, Some(3));
    assert_eq!(d.handle_mouse_event(ev(450, 60, true)), (true, DesktopAction::Nothing));
    let w = *d.windows.last().unwrap();
    assert_eq!((w.x, w.y), (440, 50));
    // The top stays between 0 and 48 pixels above the bottom.
    d.handle_mouse_event(ev(450, 5000, true));
    assert_eq!(d.windows.last().unwrap().y, 600 - 48);
    d.handle_mouse_event(ev(450, -5000, true));
    assert_eq!(d.windows.last().unwrap().y, 0);
    assert_eq!(d.handle_mouse_event(ev(450, 60, false)), (true, DesktopAction::Nothing));
    assert_eq!(d.dragging_window_idx, None);
    assert_eq!(d.handle_mouse_event(ev(500, 60, false)), (false, DesktopAction::Nothing));
    assert_eq!(d.windows.last().unwrap().x, 440);
}

#[test]
fn client_click_raises_and_passes_local_coordinates() {
    let mut d = desktop();
    let r = click(&mut d, 300, 400);
    assert_eq!(r, (true, DesktopAction::Click { id: 2, local_x: 300 - 284, local_y: 400 - 312 }));
    assert_eq!(ids(&d), vec![1, 4, 3, 2]);
    assert_eq!(d.handle_key_event(), Some(2));
}

#[test]
fn desktop_shortcut_spawns_its_application() {
    let mut d = desktop();
    assert_eq!(click(&mut d, 100, 300), (true, DesktopAction::Spawned { kind: AppKind::Doom, id: 5 }));
    let w = *d.windows.last().unwrap();
    assert_eq!((w.x, w.y, w.width, w.height), (78, 45, 644, 454));
    // A click on the empty desktop does nothing.
    let mut e = desktop();
    assert_eq!(click(&mut e, 60, 500), (false, DesktopAction::Nothing));
}

#[test]
fn held_button_does_not_click_again() {
    let mut d = desktop();
    d.handle_mouse_event(ev(60, 500, true));
    assert_eq!(d.handle_mouse_event(ev(100, 300, true)), (false, DesktopAction::Nothing));
    assert_eq!(d.windows.len(), 4);
}

#[test]
fn taskbar_tabs_raise_or_minimize() {
    let mut d = desktop();
    // Four windows on an 800-wide screen: tabs 140 wide, 4 apart, from 77.
    assert_eq!(click(&mut d, 77 + 3 * 144 + 10, 590), (true, DesktopAction::Nothing));
    assert!(d.windows[3].is_minimized);
    assert_eq!(click(&mut d, 77 + 10, 590), (true, DesktopAction::Nothing));
    assert_eq!(ids(&d), vec![2, 4, 3, 1]);
    assert!(d.windows[3].is_focused);
    // Between tabs, nothing changes but the redraw.
    assert_eq!(click(&mut d, 77 + 141, 590), (true, DesktopAction::Nothing));
    assert_eq!(ids(&d), vec![2, 4, 3, 1]);
}

#[test]
fn pointer_background_is_put_back() {
    let mut d = desktop();
    let before = d.fb.backbuffer.clone();
    d.update_cursor_fast(100, 100);
    assert!(d.cursor_active);
    assert_ne!(d.fb.backbuffer, before);
    assert_eq!(d.fb.backbuffer[100 * 800 + 100], mouros::palette::BLACK);
    // The presented boxes show the back buffer.
    assert_eq!(d.fb.bga.screen[100 * 800 + 100], mouros::palette::BLACK);
    d.update_cursor_fast(300, 300);
    for row in 100..124 {
        for col in 100..124 {
            assert_eq!(d.fb.backbuffer[row * 800 + col], before[row * 800 + col]);
        }
    }
    let snapshot = d.fb.backbuffer.clone();
    d.update_cursor_fast(300, 300);
    assert_eq!(d.fb.backbuffer, snapshot);
}

#[test]
fn ticks_plan_theme_windows_and_clock() {
    let mut d = desktop();
    let mut themes = ThemeState::new();
    let p = d.on_tick(&mut themes);
    assert!(!p.theme_changed);
    assert_eq!(p.ticks, vec![(1, true), (2, true), (3, true)]);
    assert!(!p.clock_due);
    set_theme(&mut themes, ThemeKind::MacOS9);
    let p = d.on_tick(&mut themes);
    assert!(p.theme_changed);
    assert_eq!(d.theme.kind, ThemeKind::MacOS9);
    assert!(themes.pending.is_none());
    // A minimized music player still ticks, without a say in redrawing.
    click(&mut d, 15 + 365 - 38 + 3, 26);
    for _ in 0..7 {
        d.on_tick(&mut themes);
    }
    let p = d.on_tick(&mut themes);
    assert!(p.clock_due);
    assert_eq!(p.ticks, vec![(1, true), (2, true), (3, false)]);
    assert!(!d.seconds_changed(30));
    assert!(d.seconds_changed(31));
    d.set_clock(RtcTime { seconds: 31, ..clock() });
    assert_eq!(d.clock_cache.seconds, 31);
}

#[test]
fn window_geometry() {
    let w = Window::new(7, 10, 20, 100, 50, AppKind::Notepad);
    assert!(!w.is_minimized && !w.is_focused);
    assert_eq!(w.client_bounds(), (14, 42, 92, 24));
    assert!(w.contains(10, 20) && w.contains(109, 69));
    assert!(!w.contains(110, 20) && !w.contains(9, 20));
    assert!(w.is_over_titlebar(50, 41) && !w.is_over_titlebar(50, 42));
    assert!(w.is_over_close_button(90, 24) && !w.is_over_close_button(106, 24));
    assert!(w.is_over_minimize_button(72, 24) && !w.is_over_minimize_button(88, 24));
    let tiny = Window::new(8, 0, 0, 5, 10, AppKind::Snake);
    assert_eq!(tiny.client_bounds(), (4, 22, 0, 0));
    let mut hidden = w;
    hidden.is_minimized = true;
    assert!(!hidden.contains(50, 30));
}

#[test]
fn title_icons() {
    assert_eq!(icon_from_title("Command Prompt"), AppIcon::Terminal);
    assert_eq!(icon_from_title("System Information"), AppIcon::SysInfo);
    assert_eq!(icon_from_title("Calculator"), AppIcon::Calculator);
    assert_eq!(icon_from_title("Mouros MP3 & Hi-Fi Player"), AppIcon::Music);
    assert_eq!(icon_from_title("Mouros 8-Bit Chiptune Player"), AppIcon::Music);
    assert_eq!(icon_from_title("Mouros Image Viewer"), AppIcon::ImageViewer);
    assert_eq!(icon_from_title("ELF Executable Runner"), AppIcon::ElfRunner);
    assert_eq!(icon_from_title("DOOM (1993) - E1 Shareware"), AppIcon::Doom);
    assert_eq!(icon_from_title("Desktop Settings"), AppIcon::Settings);
    assert_eq!(icon_from_title("Display Properties"), AppIcon::Terminal);
}
