use mouros::elf::ProcessResult;
use mouros::input::{DecodedKey, KeyCode};
use mouros::memory::SystemMemoryInfo;
use mouros::mp3::{Id3Metadata, Mp3Track};
use mouros::rtc::RtcTime;
use mouros::terminal::{find_embedded_track, TerminalAction, TerminalApp};
use mouros::theme::{current_theme, take_pending_theme, ThemeKind, ThemeState};

fn line(t: &TerminalApp, i: usize) -> String {
    t.lines[i].iter().collect()
}

fn last_lines(t: &TerminalApp, n: usize) -> Vec<String> {
    let len = t.lines.len();
    t.lines[len - n..].iter().map(|l| l.iter().collect()).collect()
}

fn run(t: &mut TerminalApp, themes: &mut ThemeState, cmd: &str) -> TerminalAction {
    for c in cmd.chars() {
        t.on_key(DecodedKey::Unicode(c), themes);
    }
    t.on_key(DecodedKey::Unicode('\n'), themes)
}

fn chars(s: &str) -> Vec<char> {
    s.chars().collect()
}

#[test]
fn terminal_starts_with_banner() {
    let t = TerminalApp::new();
    assert_eq!(t.title(), "Command Prompt");
    assert_eq!(t.lines.len(), 3);
    assert_eq!(line(&t, 0), "Mouros Desktop OS Shell [Version 0.2.0]");
    assert_eq!(line(&t, 1), "Type 'help' to see a list of commands.");
    assert_eq!(line(&t, 2), "");
    assert!(t.current_input.is_empty());
}

#[test]
fn terminal_echo_joins_words() {
    let mut t = TerminalApp::new();
    let mut th = ThemeState::new();
    let a = run(&mut t, &mut th, "  echo   hello    world  ");
    assert_eq!(a, TerminalAction::Nothing);
    assert_eq!(last_lines(&t, 2), vec!["mouros> echo   hello    world", "hello world"]);
    assert!(t.current_input.is_empty());
}

#[test]
fn terminal_calc_results_and_errors() {
    let mut t = TerminalApp::new();
    let mut th = ThemeState::new();
    run(&mut t, &mut th, "calc 42 * 7");
    assert_eq!(last_lines(&t, 1), vec!["= 294"]);
    run(&mut t, &mut th, "calc -7 / 2");
    assert_eq!(last_lines(&t, 1), vec!["= -3"]);
    run(&mut t, &mut th, "calc 1 / 0");
    assert_eq!(last_lines(&t, 1), vec!["Error: Division by zero or unknown operator"]);
    run(&mut t, &mut th, "calc 1 % 2");
    assert_eq!(last_lines(&t, 1), vec!["Error: Division by zero or unknown operator"]);
    run(&mut t, &mut th, "calc x + 2");
    assert_eq!(last_lines(&t, 1), vec!["Usage: calc <num1> <+|-|*|/> <num2>"]);
    run(&mut t, &mut th, "calc 1 +");
    assert_eq!(last_lines(&t, 1), vec!["Usage: calc <num1> <+|-|*|/> <num2>"]);
}

#[test]
fn terminal_calc_overflow_is_detected_before_running() {
    let mut t = TerminalApp::new();
    for c in "calc 9223372036854775807 + 1".chars() {
        let mut th = ThemeState::new();
        t.on_key(DecodedKey::Unicode(c), &mut th);
    }
    assert!(t.input_overflows());
    let mut t2 = TerminalApp::new();
    for c in "calc 1 + 1".chars() {
        let mut th = ThemeState::new();
        t2.on_key(DecodedKey::Unicode(c), &mut th);
    }
    assert!(!t2.input_overflows());
}

#[test]
fn terminal_unknown_command_and_empty_line() {
    let mut t = TerminalApp::new();
    let mut th = ThemeState::new();
    run(&mut t, &mut th, "frobnicate now");
    assert_eq!(last_lines(&t, 2), vec!["mouros> frobnicate now", "Unknown command: 'frobnicate'. Type 'help' for commands."]);
    let n = t.lines.len();
    run(&mut t, &mut th, "   ");
    assert_eq!(t.lines.len(), n + 1);
    assert_eq!(last_lines(&t, 1), vec!["mouros> "]);
}

#[test]
fn terminal_help_and_clear() {
    let mut t = TerminalApp::new();
    let mut th = ThemeState::new();
    run(&mut t, &mut th, "help");
    assert_eq!(last_lines(&t, 15)[0], "mouros> help");
    assert_eq!(last_lines(&t, 14)[0], "Available commands:");
    assert_eq!(last_lines(&t, 1)[0], "  reboot    - Reboot the computer");
    run(&mut t, &mut th, "clear");
    assert!(t.lines.is_empty());
}

#[test]
fn terminal_theme_command_sets_the_theme() {
    let mut t = TerminalApp::new();
    let mut th = ThemeState::new();
    run(&mut t, &mut th, "theme");
    assert_eq!(last_lines(&t, 3)[0], "Current theme: Windows98");
    run(&mut t, &mut th, "theme matrix");
    assert_eq!(last_lines(&t, 1), vec!["Theme updated to: MatrixEmerald"]);
    assert_eq!(current_theme(&th), ThemeKind::MatrixEmerald);
    assert_eq!(take_pending_theme(&mut th), Some(ThemeKind::MatrixEmerald));
    run(&mut t, &mut th, "theme plaid");
    assert_eq!(last_lines(&t, 1), vec!["Unknown theme: 'plaid'. Options: classic, platinum, deepspace, cyberpunk, matrix, sunset"]);
    assert_eq!(current_theme(&th), ThemeKind::MatrixEmerald);
    assert_eq!(take_pending_theme(&mut th), None);
}

#[test]
fn terminal_requests_for_the_host() {
    let mut t = TerminalApp::new();
    let mut th = ThemeState::new();
    assert_eq!(run(&mut t, &mut th, "sysinfo"), TerminalAction::SystemInfo);
    assert_eq!(run(&mut t, &mut th, "mem"), TerminalAction::MemoryStats);
    assert_eq!(run(&mut t, &mut th, "time"), TerminalAction::ReadClock);
    assert_eq!(run(&mut t, &mut th, "beep"), TerminalAction::Beep);
    assert_eq!(run(&mut t, &mut th, "reboot"), TerminalAction::Reboot);
    assert_eq!(run(&mut t, &mut th, "elf run fibonacci.elf"), TerminalAction::RunElf { sample: 1, name: chars("fibonacci.elf") });
    assert_eq!(run(&mut t, &mut th, "elf run nope"), TerminalAction::Nothing);
    assert_eq!(last_lines(&t, 1), vec!["ELF binary not found: 'nope'. Run 'elf list' for available binaries."]);
    assert_eq!(run(&mut t, &mut th, "mp3"), TerminalAction::ListTracks);
    assert_eq!(run(&mut t, &mut th, "mp3 info 2"), TerminalAction::TrackInfo(chars("2")));
    assert_eq!(run(&mut t, &mut th, "mp3 decode song"), TerminalAction::DecodeTrack(chars("song")));
    assert_eq!(run(&mut t, &mut th, "mp3 play song"), TerminalAction::PlayTrack(chars("song")));
    assert_eq!(run(&mut t, &mut th, "mp3 info"), TerminalAction::Nothing);
    assert_eq!(last_lines(&t, 1), vec!["Usage: mp3 list | mp3 info <name> | mp3 decode <name> | mp3 play <name>"]);
    assert_eq!(run(&mut t, &mut th, "doom"), TerminalAction::DoomInfo);
    assert_eq!(run(&mut t, &mut th, "doom bench"), TerminalAction::DoomBench(chars("E1M1")));
    assert_eq!(last_lines(&t, 1), vec![">>> Initializing Doom engine for E1M1..."]);
    assert_eq!(run(&mut t, &mut th, "doom bench E1M3"), TerminalAction::DoomBench(chars("E1M3")));
}

#[test]
fn terminal_reports() {
    let mut t = TerminalApp::new();
    t.report_system_info(512 * 1048576, 32 * 1048576);
    assert_eq!(last_lines(&t, 1), vec!["  RAM: 512 MiB (Physical) | Heap: 32 MiB"]);
    t.report_memory(SystemMemoryInfo { total_ram_bytes: 2048 * 1048576, usable_ram_bytes: 2000 * 1048576 }, 3 * 1048576 / 2, 32 * 1048576);
    assert_eq!(last_lines(&t, 6), vec![
        "System Memory Statistics:",
        "  Physical RAM (QEMU): 2048 MiB (2.0 GiB)",
        "  Usable Physical RAM: 2000 MiB",
        "  Kernel Heap Total:   32 MiB",
        "  Kernel Heap Used:    1.5 MiB",
        "  Heap Base Virtual:   0x444444440000",
    ]);
    t.report_time(RtcTime { hours: 7, minutes: 5, seconds: 9, year: 2024, month: 3, day: 1 });
    assert_eq!(last_lines(&t, 1), vec!["RTC Time: 07:05:09 | Date: 2024-03-01"]);
    t.report_elf_run(&chars("hello.elf"), 1234, Ok(ProcessResult { exit_code: -2, output: String::from("hi\nthere\n") }));
    assert_eq!(last_lines(&t, 4), vec![
        ">>> Executing userspace ELF 'hello.elf' (1234 bytes)...",
        "hi",
        "there",
        ">>> Process exited with code -2",
    ]);
    t.report_elf_run(&chars("bad.elf"), 10, Err("bad magic"));
    assert_eq!(last_lines(&t, 1), vec![">>> ELF execution error: bad magic"]);
    t.report_doom_bench(&chars("E1M1"), Some((3, 20, 256000)));
    assert_eq!(last_lines(&t, 6), vec![
        "  Map E1M1 loaded in 3 ticks (~30 ms)",
        ">>> Running 70 ticks (2 full seconds of Doom simulation)...",
        "  70 ticks completed in 20 ticks (~200 ms)",
        "  Render Throughput: ~350 FPS (target 35 FPS)",
        "  Framebuffer size: 256000 bytes verified",
        "  Status: BIT-PERFECT & READY TO PLAY",
    ]);
    t.report_doom_bench(&chars("E9M9"), None);
    assert_eq!(last_lines(&t, 1), vec!["Failed to load map 'E9M9'. Valid maps: E1M1..E1M9"]);
}

#[test]
fn terminal_drops_old_lines() {
    let mut t = TerminalApp::new();
    let mut th = ThemeState::new();
    for _ in 0..100 {
        run(&mut t, &mut th, "echo x");
    }
    assert!(t.lines.len() <= 151);
    assert_eq!(last_lines(&t, 1), vec!["x"]);
}

#[test]
fn terminal_backspace_and_input_limit() {
    let mut t = TerminalApp::new();
    let mut th = ThemeState::new();
    t.on_key(DecodedKey::Unicode('a'), &mut th);
    t.on_key(DecodedKey::Unicode('b'), &mut th);
    t.on_key(DecodedKey::RawKey(KeyCode::Backspace), &mut th);
    assert_eq!(t.current_input, vec!['a']);
    t.on_key(DecodedKey::Unicode('\u{8}'), &mut th);
    assert!(t.current_input.is_empty());
    for _ in 0..300 {
        t.on_key(DecodedKey::Unicode('z'), &mut th);
    }
    assert_eq!(t.current_input.len(), 256);
}

#[test]
fn terminal_blinks_every_forty_ticks() {
    let mut t = TerminalApp::new();
    for _ in 0..39 {
        assert!(!t.on_tick());
    }
    assert!(t.on_tick());
    assert!(!t.cursor_visible);
}

fn track(id: usize, name: &'static str) -> Mp3Track {
    Mp3Track::new(id, name, &[])
}

#[test]
fn find_track_by_number_or_name() {
    let tracks = vec![track(0, "Intro_Theme.mp3"), track(1, "space-ballad.mp3"), track(2, "finale.mp3")];
    assert_eq!(find_embedded_track(&chars("2"), &tracks), Some(1));
    assert_eq!(find_embedded_track(&chars("+3"), &tracks), Some(2));
    assert_eq!(find_embedded_track(&chars("BALLAD"), &tracks), Some(1));
    assert_eq!(find_embedded_track(&chars("intro_theme.mp3"), &tracks), Some(0));
    assert_eq!(find_embedded_track(&chars(".mp3"), &tracks), Some(0));
    assert_eq!(find_embedded_track(&chars("4"), &tracks), None);
    assert_eq!(find_embedded_track(&chars("0"), &tracks), None);
    assert_eq!(find_embedded_track(&chars("polka"), &tracks), None);
}

#[test]
fn track_reports() {
    let tracks = vec![track(0, "a.mp3")];
    let mut t = TerminalApp::new();
    t.report_track_list(&tracks);
    assert_eq!(last_lines(&t, 3), vec![
        "=== Mouros Embedded MP3 Tracks ===",
        "  1. a.mp3 - Unknown [a.mp3]",
        "Usage: mp3 info <name|num> | mp3 decode <name|num>",
    ]);
    t.report_track_info(&tracks[0]);
    let info = last_lines(&t, 12);
    assert_eq!(info[0], ">>> MP3 Metadata & Stream Info: a.mp3");
    assert_eq!(info[1], "  Title:       Unknown");
    assert_eq!(info[6], "  Format:      MPEG-1 Audio Layer III");
    assert_eq!(info[7], "  Sample Rate: 44100 Hz");
    assert_eq!(info[8], "  Bitrate:     96 kbps");
    assert_eq!(info[9], "  Channels:    Stereo");
    assert_eq!(info[10], "  Frames:      0 frames (0s duration)");
    assert_eq!(info[11], "  File Size:   0 bytes (ID3 Tag: 0 bytes)");
    t.report_track_decode("a.mp3", 4096, 10, 11520, 7);
    assert_eq!(last_lines(&t, 7), vec![
        ">>> Decoding 'a.mp3' (4096 bytes) to PCM...",
        ">>> MP3 Decode Benchmark Complete!",
        "  Frames Decoded:  10",
        "  PCM Samples:     11520 samples",
        "  Raw PCM Size:    22 KB (16-bit stereo)",
        "  Decode Time:     7 ticks (~70 ms)",
        "  Integrity:       VERIFIED BIT-PERFECT",
    ]);
    t.report_track_play("a.mp3", Some(60));
    assert_eq!(last_lines(&t, 2), vec![
        ">>> Streaming 'a.mp3' to Intel AC97 PCI DMA...",
        ">>> Queued 60 frames to AC97 DMA. Tip: Use Music Player app for continuous playback!",
    ]);
    t.report_track_play("a.mp3", None);
    assert_eq!(last_lines(&t, 1), vec!["AC97 audio hardware not detected; run QEMU with: -device AC97,audiodev=snd0 -audiodev pipewire,id=snd0"]);
    t.report_track_missing(&chars("zzz"));
    assert_eq!(last_lines(&t, 1), vec!["Track not found: 'zzz'. Run 'mp3 list'."]);
}

#[test]
fn track_list_uses_tags() {
    let mut meta = Id3Metadata::empty();
    meta.title = Some(String::from("Song"));
    meta.artist = Some(String::from("Band"));
    let mut tr = track(0, "s.mp3");
    tr.metadata = meta;
    let mut t = TerminalApp::new();
    t.report_track_list(&[tr]);
    assert_eq!(last_lines(&t, 2)[0], "  1. Song - Band [s.mp3]");
}
