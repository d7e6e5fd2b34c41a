use mouros::bga::BgaDevice;
use mouros::calculator::{button_color, CalculatorApp};
use mouros::chars::{chars_from, format_spaced};
use mouros::color::Color;
use mouros::desktop::Desktop;
use mouros::doom::{find_map, map_name_of, DoomApp, Engine};
use mouros::elf_runner::{console_color, console_window, fitted, ElfRunnerApp};
use mouros::framebuffer::Framebuffer;
use mouros::image_viewer::{FilterMode, ImageViewerApp};
use mouros::input::{DecodedKey, KeyCode};
use mouros::memory::SystemMemoryInfo;
use mouros::mouse::MouseEvent;
use mouros::mp3::Mp3Track;
use mouros::music::MusicApp;
use mouros::notepad::NotepadApp;
use mouros::rtc::RtcTime;
use mouros::settings::SettingsApp;
use mouros::snake::{score_text, SnakeApp};
use mouros::speaker::SpeakerState;
use mouros::sysinfo::SysInfoApp;
use mouros::terminal::{first_visible_line, line_color, visible_input, TerminalApp};
use mouros::theme::ThemeKind;
use mouros::welcome::{
    advance_progress, is_skip_click, is_skip_scancode, percent_text, ram_line, ram_text, render_welcome_frame,
    welcome_status,
};
use mouros::window::{AppKind, Window};

fn text(v: &[char]) -> String {
    v.iter().collect()
}

fn chars(s: &str) -> Vec<char> {
    s.chars().collect()
}

fn screen(w: usize, h: usize) -> Framebuffer {
    Framebuffer::new(BgaDevice::new(w, h, 0))
}

fn pixel(fb: &Framebuffer, x: usize, y: usize) -> u32 {
    fb.backbuffer[y * fb.width + x]
}

fn rgb(r: u8, g: u8, b: u8) -> u32 {
    Color::from_rgb(r, g, b).to_u32()
}

static HELLO: [u8; 3] = [1, 2, 3];
static FIB: [u8; 5] = [0; 5];

#[test]
fn welcome_skips_on_key_press_or_button() {
    assert!(is_skip_scancode(0x1C));
    assert!(!is_skip_scancode(0x9C));
    assert!(!is_skip_scancode(0x00));
    let ev = MouseEvent { x: 0, y: 0, dx: 0, dy: 0, left_pressed: false, right_pressed: true };
    assert!(is_skip_click(ev));
    assert!(!is_skip_click(MouseEvent { right_pressed: false, ..ev }));
}

#[test]
fn welcome_progress_follows_the_timer() {
    assert_eq!(advance_progress(10, 5, 5), (10, 5));
    assert_eq!(advance_progress(10, 5, 7), (16, 7));
    assert_eq!(advance_progress(98, 5, 7), (100, 7));
    assert_eq!(advance_progress(0, 0, 1_000_000), (100, 1_000_000));
    // A timer that went back moves nothing but is remembered.
    assert_eq!(advance_progress(10, 7, 5), (10, 5));
}

#[test]
fn welcome_texts() {
    assert_eq!(text(&ram_text(512)), "512 MiB");
    assert_eq!(text(&ram_text(1536)), "1536 MiB (1.5 GiB)");
    assert_eq!(text(&ram_text(2048)), "2048 MiB (2.0 GiB)");
    assert_eq!(text(&percent_text(7)), "  7%");
    assert_eq!(text(&percent_text(100)), "100%");
    assert_eq!(welcome_status(0), "Initializing kernel paging and memory structures...");
    assert_eq!(welcome_status(60), "Starting lock-free mouse and keyboard event queues...");
    assert_eq!(welcome_status(95), "Mouros Desktop Environment Ready! Starting OS...");
    assert_eq!(text(&ram_line(&chars("512 MiB"), 32)), "512 MiB [Kernel Heap: 32 MB]");
}

#[test]
fn welcome_frame_fills_the_bar() {
    let mut fb = screen(800, 600);
    render_welcome_frame(&mut fb, 0, &chars("512 MiB"), 32, 700, 550);
    assert_eq!(pixel(&fb, 5, 5), 0xFF00_8080);
    // The bar starts at x = 170, y = 368; its first block is 3 pixels in.
    assert_eq!(pixel(&fb, 175, 373), 0xFFFF_FFFF);
    render_welcome_frame(&mut fb, 100, &chars("512 MiB"), 32, 700, 550);
    assert_eq!(pixel(&fb, 175, 373), 0xFF00_0080);
    assert_eq!(fb.width, 800);
}

#[test]
fn chars_helpers() {
    assert_eq!(chars_from(&['a', 'b', 'c'], 1), vec!['b', 'c']);
    assert_eq!(chars_from(&['a'], 1), Vec::<char>::new());
    assert_eq!(text(&format_spaced(5, 3)), "  5");
    assert_eq!(text(&format_spaced(12345, 3)), "12345");
}

#[test]
fn terminal_line_colors_and_layout() {
    assert_eq!(line_color(&chars("mouros> help")).to_u32(), rgb(56, 189, 248));
    assert_eq!(line_color(&chars("Error: bad")).to_u32(), rgb(248, 113, 113));
    assert_eq!(line_color(&chars("Unknown command")).to_u32(), rgb(248, 113, 113));
    assert_eq!(line_color(&chars("=== Help ===")).to_u32(), rgb(74, 222, 128));
    assert_eq!(line_color(&chars("hello")).to_u32(), rgb(226, 232, 240));
    assert_eq!(first_visible_line(100, 300), 73);
    assert_eq!(first_visible_line(5, 300), 0);
    assert_eq!(first_visible_line(5, 20), 5);
    assert_eq!(visible_input(5, 10), (0, 5));
    assert_eq!(visible_input(15, 10), (5, 10));
}

#[test]
fn terminal_draws_black_page_and_cursor() {
    let mut fb = screen(640, 480);
    let mut t = TerminalApp::new();
    t.cursor_visible = true;
    t.render(&mut fb, 100, 100, 400, 300);
    assert_eq!(pixel(&fb, 102, 102), 0xFF00_0000);
    // At most 27 output lines show; the input line follows them.
    let shown = t.lines.len().min(27);
    let y = 100 + 8 + 10 * shown;
    // The empty input puts the block cursor right after the prompt.
    assert_eq!(pixel(&fb, 100 + 8 + 64 + 1, y + 1), rgb(241, 245, 249));
}

#[test]
fn elf_runner_console_helpers() {
    assert_eq!(console_color(&chars(">>> run")).to_u32(), rgb(100, 220, 130));
    assert_eq!(console_color(&chars("=== done")).to_u32(), rgb(100, 180, 255));
    assert_eq!(console_color(&chars("has ERROR here")).to_u32(), rgb(255, 90, 90));
    assert_eq!(console_color(&chars("plain")).to_u32(), rgb(220, 225, 230));
    assert_eq!(text(&fitted(&chars("abcdefghij"), 6)), "abc...");
    assert_eq!(text(&fitted(&chars("abc"), 6)), "abc");
    assert_eq!(text(&fitted(&chars("abcdef"), 3)), "abcdef");
    assert_eq!(console_window(0, 0, 100), (0, 0));
    assert_eq!(console_window(5, 3, 160), (2, 3));
    assert_eq!(console_window(0, 50, 160), (0, 10));
}

#[test]
fn elf_runner_draws_its_panels() {
    let mut fb = screen(800, 600);
    let r = ElfRunnerApp::new(&HELLO, &FIB, &FIB, &FIB);
    r.render(&mut fb, 50, 50, 500, 360);
    assert_eq!(pixel(&fb, 51, 51), rgb(32, 35, 44));
    // The first entry is selected: its face is blue-gray.
    assert_eq!(pixel(&fb, 50 + 8, 50 + 28 + 2), rgb(55, 80, 130));
    // The second is not.
    assert_eq!(pixel(&fb, 50 + 8, 50 + 28 + 46 + 2), rgb(40, 44, 56));
}

#[test]
fn settings_dialog_highlights_the_selection() {
    let mut fb = screen(800, 600);
    let s = SettingsApp::new();
    s.render(&mut fb, 100, 100, 360, 240);
    assert_eq!(pixel(&fb, 101, 101), 0xFFC0_C0C0);
    // Row 0 (Windows 98, selected) is navy just inside the list.
    assert_eq!(pixel(&fb, 100 + 20, 100 + 53), 0xFF00_0080);
    // Row 1 is white there.
    assert_eq!(pixel(&fb, 100 + 20, 100 + 53 + 22), 0xFFFF_FFFF);
}

#[test]
fn calculator_keypad_colors() {
    assert_eq!(button_color('C').to_u32(), rgb(220, 38, 38));
    assert_eq!(button_color('+').to_u32(), rgb(234, 88, 12));
    assert_eq!(button_color('=').to_u32(), rgb(234, 88, 12));
    assert_eq!(button_color('7').to_u32(), rgb(51, 65, 85));
    let mut fb = screen(800, 600);
    let c = CalculatorApp::new();
    c.render(&mut fb, 100, 100, 300, 300);
    // Buttons are 63 by 50, 8 apart, from (112, 164).
    assert_eq!(pixel(&fb, 114, 166), rgb(51, 65, 85));
    assert_eq!(pixel(&fb, 114, 164 + 3 * 58 + 2), rgb(220, 38, 38));
    assert_eq!(pixel(&fb, 112 + 3 * 71 + 2, 166), rgb(234, 88, 12));
}

#[test]
fn snake_board_and_score() {
    assert_eq!(text(&score_text(30, 120)), "SCORE: 0030  HIGH: 0120");
    assert_eq!(text(&score_text(12345, 0)), "SCORE: 12345  HIGH: 0000");
    let mut fb = screen(800, 600);
    let s = SnakeApp::new();
    s.render(&mut fb, 100, 100, 340, 300);
    // The apple at cell (14, 9).
    assert_eq!(pixel(&fb, 100 + 16 + 14 * 14 + 3, 100 + 36 + 9 * 14 + 3), rgb(239, 68, 68));
    // The head is bright green.
    let (hx, hy) = s.snake[0];
    assert_eq!(pixel(&fb, 100 + 16 + 14 * hx as usize + 3, 100 + 36 + 14 * hy as usize + 3), rgb(74, 222, 128));
}

#[test]
fn notepad_gutter_and_page() {
    let mut fb = screen(800, 600);
    let n = NotepadApp::new();
    n.render(&mut fb, 100, 100, 400, 300);
    assert_eq!(pixel(&fb, 101, 101), rgb(18, 22, 30));
    assert_eq!(pixel(&fb, 135, 101), rgb(51, 65, 85));
    assert_eq!(pixel(&fb, 499, 399), rgb(24, 28, 38));
}

#[test]
fn image_viewer_shows_the_picture_centred() {
    let mut v = ImageViewerApp::new();
    assert_eq!(v.zoom_label(), "ZOOM 1x");
    assert_eq!(v.filter_label(), "FILTER: OFF");
    let mut fb = screen(800, 600);
    v.render(&mut fb, 0, 0, 420, 260);
    // The viewport is 400 by 200 at (10, 34); the picture sits at (130, 84).
    assert_eq!(pixel(&fb, 130, 84), Color::from_raw(v.gallery[0].pixels[0]).to_u32());
    assert_eq!(pixel(&fb, 129, 84), rgb(10, 15, 29));
    v.on_key(DecodedKey::Unicode('f'));
    assert_eq!(v.filter, FilterMode::Grayscale);
    assert_eq!(v.filter_label(), "FILTER: GRAY");
    v.on_key(DecodedKey::Unicode('z'));
    assert_eq!(v.zoom_label(), "ZOOM 2x");
    v.render(&mut fb, 0, 0, 420, 260);
}

#[test]
fn doom_keys_and_map_requests() {
    let mut d = DoomApp::new(false);
    assert_eq!(d.title(), "DOOM (1993) - E1 Shareware");
    assert_eq!(d.on_key(DecodedKey::Unicode('w')), None);
    assert_eq!((d.controls.forward_val, d.controls.forward_impulse), (35, 5));
    assert_eq!(d.on_key(DecodedKey::RawKey(KeyCode::ArrowLeft)), None);
    assert_eq!((d.controls.turn_val, d.controls.turn_impulse), (900, 5));
    assert_eq!(d.on_key(DecodedKey::Unicode('m')), Some(1));
    assert_eq!(d.on_key(DecodedKey::Unicode('r')), Some(0));
    assert_eq!(d.on_mouse_click(10, 10, true), Some(1));
    assert_eq!(d.on_mouse_click(10, 10, false), None);
    d.finish_load(1, true);
    assert!(d.has_engine);
    assert_eq!(d.controls.current_map_idx, 1);
    assert_eq!(d.status_msg.as_ref().map(|(m, t)| (m.as_str(), *t)), Some(("Loaded E1M2", 70)));
    d.finish_load(2, false);
    assert_eq!(d.status_msg.as_ref().map(|(m, t)| (m.as_str(), *t)), Some(("Failed to load E1M3", 100)));
    assert_eq!(text(&map_name_of(4)), "E1M5");
    assert_eq!(find_map(&chars("e1m3")), 2);
    assert_eq!(find_map(&chars("E1M9")), 8);
    assert_eq!(find_map(&chars("xyz")), 0);
}

#[test]
fn doom_ticks_step_the_engine_at_35_hz() {
    let mut d = DoomApp::new(true);
    d.on_key(DecodedKey::Unicode('w'));
    assert_eq!(d.on_tick(), (false, None));
    assert_eq!(d.on_tick(), (false, None));
    assert_eq!(d.on_tick(), (true, Some((35, 0, 0, false, false, 0))));
    assert_eq!(d.controls.tick_acc, 5);
    assert_eq!(d.controls.forward_impulse, 4);
    d.on_key(DecodedKey::Unicode('p'));
    assert!(d.controls.is_paused);
    assert_eq!(d.step(), None);
    assert_eq!(d.on_tick(), (false, None));
}

#[test]
fn doom_draws_with_and_without_a_game_frame() {
    let mut fb = screen(800, 600);
    let d = DoomApp::new(false);
    d.render(&mut fb, 50, 50, 660, 430, None);
    let frame = vec![0x40u8; 320 * 200 * 4];
    let d = DoomApp::new(true);
    d.render(&mut fb, 50, 50, 660, 430, Some(&frame));
    assert_eq!(fb.backbuffer.len(), 800 * 600);
}

#[test]
fn music_and_sysinfo_windows_draw() {
    let mut fb = screen(800, 600);
    let m = MusicApp::new(vec![Mp3Track::new(0, "t.mp3", &[0u8; 64])]);
    m.render(&mut fb, 60, 60, 480, 380, &SpeakerState::new());
    let s = SysInfoApp::new();
    let mem = SystemMemoryInfo { total_ram_bytes: 512 * 1048576, usable_ram_bytes: 500 * 1048576 };
    let now = RtcTime { hours: 1, minutes: 2, seconds: 3, year: 2024, month: 1, day: 1 };
    s.render(&mut fb, 100, 100, 400, 320, mem, 1048576, 32 * 1048576, 500, now);
    assert_eq!(pixel(&fb, 101, 101), 0xFFC0_C0C0);
}

#[test]
fn window_frame_clips_to_the_client_area() {
    let mut fb = screen(800, 600);
    let w = Window::new(1, 100, 100, 300, 200, AppKind::Terminal);
    w.render(&mut fb, "Command Prompt", ThemeKind::Windows98);
    assert_eq!(fb.clip, Some((104, 122, 396, 296)));
}

#[test]
fn desktop_full_redraw_shows_the_back_buffer() {
    let mut d = Desktop::new(
        Framebuffer::new(BgaDevice::new(800, 600, 0)),
        RtcTime { hours: 10, minutes: 20, seconds: 30, year: 2024, month: 5, day: 6 },
    );
    d.render_background(400, 300);
    let titles: Vec<&str> = d.windows.iter().map(|_| "Command Prompt").collect();
    d.render_foreground(&titles, 400, 300);
    assert_eq!(d.fb.bga.screen, d.fb.backbuffer);
    assert!(d.cursor_active);
    assert_eq!((d.cursor_saved_x, d.cursor_saved_y), (400, 300));
    d.start_menu_open = true;
    d.render_background(400, 300);
    d.render_foreground(&titles, 100, 400);
    assert_eq!(d.fb.bga.screen, d.fb.backbuffer);
}

#[test]
fn doom_without_game_data_reports_the_failed_load() {
    assert!(Engine::open(&[], &chars("E1M1")).is_none());
    let (mut d, mut engine) = DoomApp::launch(&[]);
    assert!(engine.is_none());
    assert!(!d.has_engine);
    d.load_map(&mut engine, &[], &chars("e1m3"));
    assert!(engine.is_none());
    assert_eq!(d.controls.current_map_idx, 2);
    assert_eq!(d.status_msg.as_ref().map(|(m, t)| (m.as_str(), *t)), Some(("Failed to load E1M3", 100)));
    assert!(!d.tick_game(&mut engine));
}
