use mouros::bga::BgaDevice;
use mouros::color::Color;
use mouros::elf::ProcessResult;
use mouros::elf_runner::ElfRunnerApp;
use mouros::framebuffer::Framebuffer;
use mouros::icons::{draw_icon_16, draw_icon_24, AppIcon};
use mouros::image_viewer::{apply_filter, FilterMode, ImageViewerApp};
use mouros::input::{DecodedKey, KeyCode};
use mouros::mp3::{decay_bars, Mp3Player, Mp3Track, PlayerStep};
use mouros::music::{chiptune_tracks, MusicApp, MusicButton, PlayerMode, TickWork};
use mouros::speaker::SpeakerState;
use mouros::theme::{Theme, ThemeKind};

fn text(v: &[char]) -> String {
    v.iter().collect()
}

#[test]
fn image_filters() {
    let c = Color::from_rgb(100, 150, 200);
    assert_eq!(apply_filter(c, FilterMode::Original).to_u32(), c.to_u32());
    let g = (100 * 77 + 150 * 150 + 200 * 29) / 256;
    assert_eq!(apply_filter(c, FilterMode::Grayscale).to_u32(), Color::from_rgb(g as u8, g as u8, g as u8).to_u32());
    assert_eq!(apply_filter(c, FilterMode::Invert).to_u32(), Color::from_rgb(155, 105, 55).to_u32());
    let white = Color::from_rgb(255, 255, 255);
    // Sepia of white is capped at 255 in each channel.
    assert_eq!(apply_filter(white, FilterMode::Sepia).to_u32(), Color::from_rgb(255, 255, 238).to_u32());
}

#[test]
fn image_viewer_navigation() {
    let mut v = ImageViewerApp::new();
    assert_eq!(v.title(), "Mouros Image Viewer");
    assert_eq!(v.gallery.len(), 3);
    assert_eq!(v.gallery[1].title, "Retro Synthwave Sunset");
    assert!(v.gallery.iter().all(|i| i.pixels.len() == 160 * 100));
    assert_eq!(v.current_idx, 0);
    v.on_key(DecodedKey::Unicode('p'));
    assert_eq!(v.current_idx, 2);
    v.on_key(DecodedKey::Unicode('N'));
    assert_eq!(v.current_idx, 0);
    v.on_key(DecodedKey::Unicode('z'));
    assert_eq!(v.zoom, 2);
    v.on_key(DecodedKey::Unicode('z'));
    assert_eq!(v.zoom, 1);
    v.on_key(DecodedKey::Unicode('f'));
    assert_eq!(v.filter, FilterMode::Grayscale);
    v.on_mouse_click(200, 10, true);
    assert_eq!(v.filter, FilterMode::Invert);
    v.on_mouse_click(80, 10, true);
    assert_eq!(v.current_idx, 1);
    v.on_mouse_click(30, 10, true);
    assert_eq!(v.current_idx, 0);
    v.on_mouse_click(30, 10, false);
    v.on_key(DecodedKey::RawKey(KeyCode::ArrowLeft));
    assert_eq!(v.current_idx, 0);
}

fn player_track() -> Mp3Track {
    Mp3Track::new(0, "t.mp3", &[0u8; 64])
}

#[test]
fn music_buttons_and_modes() {
    let mut m = MusicApp::new(vec![player_track(), Mp3Track::new(1, "u.mp3", &[0u8; 32])]);
    let mut sp = SpeakerState::new();
    assert_eq!(m.mode, PlayerMode::Mp3);
    assert_eq!(m.title(), "Mouros MP3 & Hi-Fi Player");
    assert!(!m.is_playing());
    m.press(MusicButton::PlayPause, &mut sp);
    assert!(m.is_playing());
    m.press(MusicButton::Next, &mut sp);
    assert_eq!(m.mp3_player.current_track, 1);
    m.press(MusicButton::Next, &mut sp);
    assert_eq!(m.mp3_player.current_track, 0);
    m.press(MusicButton::Prev, &mut sp);
    assert_eq!(m.mp3_player.current_track, 1);
    m.press(MusicButton::Stop, &mut sp);
    assert!(!m.is_playing());
    m.press(MusicButton::Mute, &mut sp);
    assert!(sp.muted);
    m.press(MusicButton::Mute, &mut sp);
    assert!(!sp.muted);
    assert_eq!(m.on_key(DecodedKey::Unicode('t'), &mut sp), Some(MusicButton::Mode));
    assert_eq!(m.mode, PlayerMode::Chiptune);
    assert_eq!(m.title(), "Mouros 8-Bit Chiptune Player");
    assert_eq!(m.on_mouse_click(30, 150, true, &mut sp), Some(MusicButton::PlayPause));
    assert!(m.is_playing());
    assert_eq!(m.on_key(DecodedKey::Unicode('x'), &mut sp), None);
}

#[test]
fn music_ticks() {
    let mut m = MusicApp::new(vec![player_track()]);
    let mut sp = SpeakerState::new();
    // Without the codec, one frame is due every 2.61 ticks.
    let frames: Vec<u32> = (0..6).map(|_| match m.on_tick(&mut sp, false) {
        TickWork::Mp3Frames { frames } => frames,
        TickWork::Done { .. } => 99,
    }).collect();
    assert_eq!(frames, vec![0, 0, 1, 0, 0, 1]);
    assert_eq!(m.on_tick(&mut sp, true), TickWork::Mp3Frames { frames: 8 });
    m.press(MusicButton::Mode, &mut sp);
    m.press(MusicButton::PlayPause, &mut sp);
    match m.on_tick(&mut sp, false) {
        TickWork::Done { .. } => {}
        other => panic!("unexpected {:?}", other),
    }
}

#[test]
fn chiptune_tunes() {
    let ts = chiptune_tracks();
    assert_eq!(ts.len(), 4);
    assert!(ts.iter().all(|t| !t.notes.is_empty() && t.notes.iter().all(|n| n.1 <= 6)));
}

#[test]
fn mp3_player_steps() {
    let mut p = Mp3Player::new(vec![player_track()]);
    assert_eq!(p.viz_heights, [4u8; 16]);
    assert_eq!(p.begin_step(), PlayerStep::Idle { changed: true });
    assert_eq!(p.viz_heights, [3u8; 16]);
    p.play();
    assert!(p.is_playing);
    assert_eq!(p.begin_step(), PlayerStep::Decode { offset: 0, restart: false });
    assert!(p.finish_step(10, None));
    assert_eq!(p.byte_offset, 10);
    assert_eq!(p.current_frame, 1);
    assert!(p.finish_step(0, None));
    assert_eq!((p.byte_offset, p.current_frame), (0, 0));
    p.byte_offset = 64;
    assert_eq!(p.begin_step(), PlayerStep::Decode { offset: 0, restart: true });
    p.pause();
    assert!(!p.is_playing);
    let mut bars = [5u8, 2, 1, 3, 0, 9, 2, 2, 2, 2, 2, 2, 2, 2, 2, 2];
    assert!(decay_bars(&mut bars));
    assert_eq!(bars, [4u8, 2, 1, 2, 0, 8, 2, 2, 2, 2, 2, 2, 2, 2, 2, 2]);
    let mut low = [2u8; 16];
    assert!(!decay_bars(&mut low));
}

static HELLO: [u8; 3] = [1, 2, 3];
static FIB: [u8; 5] = [0; 5];

#[test]
fn elf_runner_runs_selected_program() {
    let mut r = ElfRunnerApp::new(&HELLO, &FIB, &FIB, &FIB);
    assert_eq!(r.title(), "ELF Executable Runner");
    assert_eq!(text(&r.status_text), "Ready - Select a binary and click 'Run ELF'");
    r.on_key(DecodedKey::RawKey(KeyCode::ArrowDown));
    assert_eq!(r.selected_idx, 1);
    r.on_key(DecodedKey::Unicode('w'));
    assert_eq!(r.selected_idx, 0);
    let prog = r.on_key(DecodedKey::Unicode('\n')).unwrap();
    assert_eq!(prog, &HELLO[..]);
    assert_eq!(r.output_lines.len(), 1);
    assert_eq!(text(&r.output_lines[0]), ">>> Executing: hello.elf (3 bytes)...");
    r.finish_run(Ok(ProcessResult { exit_code: 0, output: String::from("a\nb") }), 5);
    let lines: Vec<String> = r.output_lines.iter().map(|l| text(l)).collect();
    assert_eq!(lines, vec![">>> Executing: hello.elf (3 bytes)...", "a", "b", ">>> Process exited with code 0 in ~50 ms"]);
    assert_eq!(text(&r.status_text), "Finished: code 0 (50 ms)");
    // A click on the third entry selects it; the Run button starts it.
    assert!(r.on_mouse_click(50, 130, true).is_none());
    assert_eq!(r.selected_idx, 2);
    let prog = r.on_mouse_click(50, 240, true).unwrap();
    assert_eq!(prog.len(), 5);
    r.finish_run(Err("boom"), 0);
    assert_eq!(text(&r.status_text), "Error: boom");
    assert_eq!(text(r.output_lines.last().unwrap()), ">>> EXECUTION ERROR: boom");
}

#[test]
fn icons_stay_in_their_box() {
    for (size, icon) in [(24, AppIcon::Terminal), (24, AppIcon::Doom), (16, AppIcon::Music), (16, AppIcon::Power)] {
        let mut fb = Framebuffer::new(BgaDevice::new(40, 40, 0));
        fb.clear(Color::from_rgb(1, 2, 3));
        let before = fb.backbuffer.clone();
        if size == 24 {
            draw_icon_24(&mut fb, 8, 8, icon);
        } else {
            draw_icon_16(&mut fb, 8, 8, icon);
        }
        let mut changed = 0;
        for row in 0..40 {
            for col in 0..40 {
                let i = row * 40 + col;
                let inside = (8..8 + size).contains(&row) && (8..8 + size).contains(&col);
                if !inside {
                    assert_eq!(fb.backbuffer[i], before[i]);
                } else if fb.backbuffer[i] != before[i] {
                    changed += 1;
                }
            }
        }
        assert!(changed > 0);
    }
    assert_eq!(AppIcon::from_id(5), AppIcon::Music);
    assert_eq!(AppIcon::from_id(42), AppIcon::Power);
}

#[test]
fn themes_and_wallpapers() {
    let t = Theme::get(ThemeKind::Windows98);
    assert_eq!(t.name, "Windows 98 (Memphis)");
    assert_eq!(t.wallpaper_top.to_u32(), 0xFF00_8080);
    let wp = t.render_wallpaper(320, 200);
    assert_eq!(wp.len(), 320 * 200);
    assert_eq!(wp[0], 0xFF00_8080);
    let mac = Theme::get(ThemeKind::MacOS9);
    assert_eq!(mac.name, "Mac OS 9 (Platinum)");
    let space = Theme::get(ThemeKind::DeepSpace).render_wallpaper(64, 64);
    assert_eq!(space.len(), 64 * 64);
}

#[test]
fn toggle_mode_stops_the_player_in_front() {
    let mut m = MusicApp::new(vec![player_track()]);
    let mut sp = SpeakerState::new();
    m.press(MusicButton::PlayPause, &mut sp);
    assert!(m.mp3_player.is_playing);
    m.toggle_mode(&mut sp);
    assert_eq!(m.mode, PlayerMode::Chiptune);
    assert!(!m.mp3_player.is_playing);
    assert_eq!(m.mp3_player.current_frame, 0);
    assert!(m.chiptune_is_playing);
    m.toggle_mode(&mut sp);
    assert_eq!(m.mode, PlayerMode::Mp3);
    assert!(!m.chiptune_is_playing);
    assert_eq!(m.note_idx, 0);
    assert!(m.mp3_player.is_playing);
}
