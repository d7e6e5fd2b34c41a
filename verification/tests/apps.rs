use mouros::calculator::CalculatorApp;
use mouros::input::{DecodedKey, KeyCode};
use mouros::interrupts::{InterruptIndex, PIC_1_OFFSET, PIC_2_OFFSET};
use mouros::notepad::NotepadApp;
use mouros::rtc::{bcd_to_bin, decode_seconds, decode_time, ClockRegisters};
use mouros::settings::SettingsApp;
use mouros::snake::{GameState, SnakeApp};
use mouros::speaker::{beep, get_current_frequency, is_muted, set_muted, stop_tone, SpeakerCommand, SpeakerState};
use mouros::sysinfo::SysInfoApp;
use mouros::theme::{current_theme, take_pending_theme, ThemeKind, ThemeState};

fn text(v: &[char]) -> String {
    v.iter().collect()
}

fn key(c: char) -> DecodedKey {
    DecodedKey::Unicode(c)
}

fn press_all(calc: &mut CalculatorApp, keys: &str) {
    for c in keys.chars() {
        calc.on_key(key(c));
    }
}

#[test]
fn calculator_starts_at_zero() {
    let calc = CalculatorApp::new();
    assert_eq!(text(&calc.display), "0");
    assert_eq!(calc.accumulator, 0);
    assert_eq!(calc.pending_op, None);
    assert_eq!(calc.title(), "Calculator");
}

#[test]
fn calculator_adds_and_multiplies() {
    let mut calc = CalculatorApp::new();
    press_all(&mut calc, "12+30=");
    assert_eq!(text(&calc.display), "42");
    press_all(&mut calc, "*2=");
    assert_eq!(text(&calc.display), "84");
    // Operators chain left to right.
    let mut c2 = CalculatorApp::new();
    press_all(&mut c2, "2+3*4=");
    assert_eq!(text(&c2.display), "20");
}

#[test]
fn calculator_divides_toward_zero_and_by_zero_gives_zero() {
    let mut calc = CalculatorApp::new();
    press_all(&mut calc, "7/2=");
    assert_eq!(text(&calc.display), "3");
    let mut neg = CalculatorApp::new();
    press_all(&mut neg, "3-10=");
    assert_eq!(text(&neg.display), "-7");
    press_all(&mut neg, "/2=");
    assert_eq!(text(&neg.display), "-3");
    let mut zero = CalculatorApp::new();
    press_all(&mut zero, "5/0=");
    assert_eq!(text(&zero.display), "0");
}

#[test]
fn calculator_saturates_on_overflow() {
    let mut calc = CalculatorApp::new();
    press_all(&mut calc, "999999999999*999999999999=");
    assert_eq!(calc.accumulator, i64::MAX);
    assert_eq!(text(&calc.display), "9223372036854775807");
}

#[test]
fn calculator_display_holds_twelve_digits() {
    let mut calc = CalculatorApp::new();
    press_all(&mut calc, "12345678901234");
    assert_eq!(text(&calc.display), "123456789012");
}

#[test]
fn calculator_backspace_and_clear() {
    let mut calc = CalculatorApp::new();
    press_all(&mut calc, "123+4");
    calc.on_key(key('c'));
    assert_eq!(text(&calc.display), "0");
    assert_eq!(calc.pending_op, None);
    assert_eq!(calc.accumulator, 0);
}

#[test]
fn calculator_keypad_clicks() {
    let mut calc = CalculatorApp::new();
    // Row 2 column 0 is '1'; row 3 column 3 is '+'; row 3 column 2 is '='.
    calc.on_mouse_click(20, 160, true);
    calc.on_mouse_click(170, 200, true);
    calc.on_mouse_click(20, 160, true);
    calc.on_mouse_click(120, 200, true);
    assert_eq!(text(&calc.display), "2");
    // Between buttons, or with the right button, nothing happens.
    calc.on_mouse_click(58, 160, true);
    calc.on_mouse_click(20, 160, false);
    assert_eq!(text(&calc.display), "2");
}

#[test]
fn notepad_typing_then_backspace_restores() {
    let mut pad = NotepadApp::new();
    let before: Vec<Vec<char>> = pad.lines.clone();
    let (row, col) = (pad.cursor_row, pad.cursor_col);
    pad.on_key(key('x'));
    assert_eq!(text(&pad.lines[row]), "Try editing this text!x");
    assert_eq!(pad.cursor_col, col + 1);
    pad.on_key(key('\u{8}'));
    assert_eq!(pad.lines, before);
    assert_eq!((pad.cursor_row, pad.cursor_col), (row, col));
}

#[test]
fn notepad_enter_then_backspace_joins_back() {
    let mut pad = NotepadApp::new();
    pad.on_key(DecodedKey::RawKey(KeyCode::ArrowLeft));
    pad.on_key(DecodedKey::RawKey(KeyCode::ArrowLeft));
    let before: Vec<Vec<char>> = pad.lines.clone();
    pad.on_key(key('\n'));
    assert_eq!(pad.lines.len(), before.len() + 1);
    assert_eq!(text(&pad.lines[10]), "Try editing this tex");
    assert_eq!(text(&pad.lines[11]), "t!");
    assert_eq!((pad.cursor_row, pad.cursor_col), (11, 0));
    pad.on_key(key('\u{8}'));
    assert_eq!(pad.lines, before);
    assert_eq!((pad.cursor_row, pad.cursor_col), (10, 20));
}

#[test]
fn notepad_arrows_stay_inside_the_text() {
    let mut pad = NotepadApp::new();
    pad.on_key(DecodedKey::RawKey(KeyCode::ArrowDown));
    assert_eq!(pad.cursor_row, 10);
    pad.on_key(DecodedKey::RawKey(KeyCode::ArrowUp));
    // Line 9 is empty, so the column is pulled back to its end.
    assert_eq!((pad.cursor_row, pad.cursor_col), (9, 0));
    pad.on_key(DecodedKey::RawKey(KeyCode::ArrowLeft));
    assert_eq!(pad.cursor_col, 0);
    pad.on_key(DecodedKey::RawKey(KeyCode::ArrowUp));
    pad.on_key(DecodedKey::RawKey(KeyCode::ArrowRight));
    assert_eq!((pad.cursor_row, pad.cursor_col), (8, 1));
    // Non-printable characters are ignored.
    let before = pad.lines.clone();
    pad.on_key(key('\u{7f}'));
    pad.on_key(key('é'));
    assert_eq!(pad.lines, before);
}

#[test]
fn notepad_blinks_every_forty_ticks() {
    let mut pad = NotepadApp::new();
    for _ in 0..39 {
        assert!(!pad.on_tick());
    }
    assert!(pad.on_tick());
    assert!(!pad.cursor_visible);
}

#[test]
fn snake_moves_every_twelfth_tick() {
    let mut game = SnakeApp::new();
    assert_eq!(game.snake, vec![(6, 9), (5, 9), (4, 9)]);
    for _ in 0..11 {
        assert!(!game.on_tick());
    }
    assert!(game.on_tick());
    assert_eq!(game.snake, vec![(7, 9), (6, 9), (5, 9)]);
    assert_eq!(game.tick_timer, 0);
}

#[test]
fn snake_eats_grows_and_scores() {
    let mut game = SnakeApp::new();
    // Food starts at (14, 9), eight cells right of the head.
    for _ in 0..8 {
        game.step();
    }
    assert_eq!(game.snake.len(), 4);
    assert_eq!(game.snake[0], (14, 9));
    assert_eq!(game.score, 10);
    assert_eq!(game.high_score, 10);
    // The food moves on: ((14 * 7 + 3) % 20 + 1, (9 * 11 + 5) % 16 + 1).
    assert_eq!(game.food, (2, 9));
}

#[test]
fn snake_hits_the_wall_and_restarts() {
    let mut game = SnakeApp::new();
    for _ in 0..16 {
        game.step();
    }
    assert_eq!(game.state, GameState::GameOver);
    let score = game.score;
    game.step();
    assert_eq!(game.score, score);
    game.on_key(key('r'));
    assert_eq!(game.state, GameState::Playing);
    assert_eq!(game.snake, vec![(6, 9), (5, 9), (4, 9)]);
    assert_eq!(game.score, 0);
    assert_eq!(game.high_score, 10);
}

#[test]
fn snake_cannot_reverse() {
    let mut game = SnakeApp::new();
    game.on_key(DecodedKey::RawKey(KeyCode::ArrowLeft));
    assert_eq!(game.next_dir, (1, 0));
    game.on_key(key('w'));
    assert_eq!(game.next_dir, (0, -1));
    game.step();
    assert_eq!(game.snake[0], (6, 8));
}

#[test]
fn sysinfo_texts() {
    assert_eq!(SysInfoApp::new().title(), "System Information");
    assert_eq!(text(&SysInfoApp::ram_text(512 * 1048576)), "512 MB Physical RAM");
    assert_eq!(text(&SysInfoApp::ram_text(3 * 1073741824 / 2)), "1536 MB (1.5 GB) of RAM");
    assert_eq!(text(&SysInfoApp::ram_text(0)), "1 MB Physical RAM");
    assert_eq!(text(&SysInfoApp::heap_text(3 * 1048576 / 2, 32 * 1048576)), "1.5 / 32 MB");
    assert_eq!(SysInfoApp::heap_percent(16 * 1048576, 32 * 1048576), 50);
    assert_eq!(SysInfoApp::heap_percent(0, 32 * 1048576), 5);
    assert_eq!(SysInfoApp::heap_percent(64 * 1048576, 32 * 1048576), 100);
    assert_eq!(SysInfoApp::heap_percent(5, 10), 10);
    assert_eq!(text(&SysInfoApp::uptime_text(12345)), "Uptime: 123s");
    assert_eq!(SysInfoApp::gauge_blocks(100, 50), 6);
    assert_eq!(SysInfoApp::gauge_blocks(2, 100), 0);
}

#[test]
fn rtc_decodes_bcd_and_twelve_hour_clock() {
    assert_eq!(bcd_to_bin(0x59), 59);
    assert_eq!(bcd_to_bin(0x00), 0);
    let regs = ClockRegisters { seconds: 0x30, minutes: 0x45, hours: 0x12, day: 0x31, month: 0x12, year: 0x24, status_b: 0x02 };
    let t = decode_time(regs);
    assert_eq!((t.hours, t.minutes, t.seconds, t.year, t.month, t.day), (12, 45, 30, 2024, 12, 31));
    // 12-hour mode, PM flag set: 3 PM is 15 o'clock.
    let pm = ClockRegisters { hours: 0x83, status_b: 0x00, ..regs };
    assert_eq!(decode_time(pm).hours, 15);
    // Binary mode leaves the registers as they are.
    let bin = ClockRegisters { seconds: 30, minutes: 45, hours: 23, day: 1, month: 2, year: 25, status_b: 0x06 };
    let tb = decode_time(bin);
    assert_eq!((tb.hours, tb.minutes, tb.seconds, tb.year), (23, 45, 30, 2025));
    assert_eq!(decode_seconds(0x42, 0x02), 42);
    assert_eq!(decode_seconds(42, 0x04), 42);
    assert_eq!(text(&SysInfoApp::clock_text(t)), "12:45:30 2024-12-31");
}

#[test]
fn speaker_tones_and_mute() {
    let mut s = SpeakerState::new();
    assert_eq!(get_current_frequency(&s), 0);
    let cmd = beep(&mut s, 440, 10);
    assert_eq!(cmd, SpeakerCommand::Tone { divisor: (1193180 / 440) as u16 });
    assert_eq!(get_current_frequency(&s), 440);
    assert_eq!(stop_tone(&mut s), SpeakerCommand::Silence);
    assert_eq!(get_current_frequency(&s), 0);
    beep(&mut s, 880, 1);
    assert_eq!(set_muted(&mut s, true), Some(SpeakerCommand::Silence));
    assert!(is_muted(&s));
    assert_eq!(get_current_frequency(&s), 0);
    assert_eq!(beep(&mut s, 440, 1), SpeakerCommand::Silence);
    assert_eq!(set_muted(&mut s, false), None);
    assert_eq!(beep(&mut s, 0, 1), SpeakerCommand::Silence);
}

#[test]
fn interrupt_vectors() {
    assert_eq!(PIC_1_OFFSET, 32);
    assert_eq!(PIC_2_OFFSET, 40);
    assert_eq!(InterruptIndex::Timer.as_u8(), 32);
    assert_eq!(InterruptIndex::Keyboard.as_u8(), 33);
    assert_eq!(InterruptIndex::Mouse.as_u8(), 44);
}

#[test]
fn settings_select_and_apply_theme() {
    let mut app = SettingsApp::new();
    let mut themes = ThemeState::new();
    assert_eq!(app.title(), "Display Properties");
    app.on_key(key('3'), &mut themes);
    assert_eq!(app.selected_theme, ThemeKind::DeepSpace);
    assert_eq!(current_theme(&themes), ThemeKind::Windows98);
    app.on_key(key('\n'), &mut themes);
    assert_eq!(app.applied_theme, ThemeKind::DeepSpace);
    assert_eq!(current_theme(&themes), ThemeKind::DeepSpace);
    assert_eq!(take_pending_theme(&mut themes), Some(ThemeKind::DeepSpace));
    assert_eq!(take_pending_theme(&mut themes), None);
    assert_eq!(current_theme(&themes), ThemeKind::DeepSpace);
    // A click on row 5 (heights 154 to 175) picks the sixth theme; Apply applies it.
    app.on_mouse_click(100, 160, true, &mut themes);
    assert_eq!(app.selected_theme, ThemeKind::RetroSunset);
    app.on_mouse_click(300, 200, true, &mut themes);
    assert_eq!(current_theme(&themes), ThemeKind::RetroSunset);
    app.on_key(key('9'), &mut themes);
    assert_eq!(app.selected_theme, ThemeKind::RetroSunset);
}
