use mouros::bga::BgaDevice;
use mouros::color::Color;
use mouros::font::{get_glyph, row_has_pixel};
use mouros::framebuffer::Framebuffer;
use mouros::palette;
use mouros::text::{format_i64, format_u64, parse_i64, parse_usize, string_from_chars};

fn chars(s: &str) -> Vec<char> {
    s.chars().collect()
}

fn text(v: &[char]) -> String {
    v.iter().collect()
}

fn small_fb(w: usize, h: usize) -> Framebuffer {
    Framebuffer::new(BgaDevice::new(w, h, 0))
}

#[test]
fn color_packs_channels() {
    let c = Color::from_rgb(1, 2, 3);
    assert_eq!(c.to_u32(), 0xFF01_0203);
    assert_eq!((c.a(), c.r(), c.g(), c.b()), (255, 1, 2, 3));
    let d = Color::from_argb(0x80, 0x10, 0x20, 0x30);
    assert_eq!(d.to_u32(), 0x8010_2030);
    assert_eq!(Color::from_u32(0x1234_5678).to_u32(), 0x1234_5678);
    assert_eq!(Color::new(9, 8, 7).to_u32(), 0xFF09_0807);
}

#[test]
fn color_channels_roundtrip() {
    for raw in [0u32, 0xFFFF_FFFF, 0x0102_0304, 0xDEAD_BEEF] {
        let c = Color::from_raw(raw);
        assert_eq!(Color::from_argb(c.a(), c.r(), c.g(), c.b()).to_u32(), raw);
    }
}

#[test]
fn blend_opaque_and_transparent() {
    let bg = Color::from_rgb(10, 20, 30);
    let fg = Color::from_rgb(200, 100, 50);
    assert_eq!(bg.blend_over(fg).to_u32(), fg.to_u32());
    let clear = Color::from_argb(0, 200, 100, 50);
    assert_eq!(bg.blend_over(clear).to_u32(), bg.to_u32());
    assert_eq!(Color::blend(fg, bg).to_u32(), fg.to_u32());
}

#[test]
fn blend_half_alpha_mixes_channels() {
    let bg = Color::from_rgb(0, 0, 0);
    let fg = Color::from_argb(128, 255, 0, 100);
    // (255 * 128 + 0 * 127) / 255 = 128; (100 * 128) / 255 = 50
    assert_eq!(bg.blend_over(fg).to_u32(), 0xFF80_0032);
}

#[test]
fn lerp_midpoint_and_clamp() {
    let black = Color::from_rgb(0, 0, 0);
    let white = Color::from_rgb(255, 255, 255);
    assert_eq!(black.lerp(white, 128).to_u32(), 0xFF7F_7F7F);
    assert_eq!(black.lerp(white, 0).to_u32(), black.to_u32());
    assert_eq!(black.lerp(white, 256).to_u32(), white.to_u32());
    assert_eq!(black.lerp(white, 1000).to_u32(), white.to_u32());
}

#[test]
fn glyph_rows_come_from_the_font_table() {
    assert_eq!(get_glyph('A'), [0x30, 0x78, 0xCC, 0xCC, 0xFC, 0xCC, 0xCC, 0x00]);
    assert_eq!(get_glyph('?'), [0x78, 0xCC, 0x0C, 0x18, 0x30, 0x00, 0x30, 0x00]);
    // Characters outside basic latin are drawn as a question mark.
    assert_eq!(get_glyph('é'), get_glyph('?'));
    assert!(row_has_pixel(0x30, 2));
    assert!(row_has_pixel(0x30, 3));
    assert!(!row_has_pixel(0x30, 0));
    assert!(!row_has_pixel(0x30, 4));
    assert!(row_has_pixel(0x80, 0));
    assert!(row_has_pixel(0x01, 7));
}

#[test]
fn format_and_parse_numbers() {
    assert_eq!(text(&format_u64(0)), "0");
    assert_eq!(text(&format_u64(1234567890)), "1234567890");
    assert_eq!(text(&format_u64(u64::MAX)), "18446744073709551615");
    assert_eq!(text(&format_i64(-42)), "-42");
    assert_eq!(text(&format_i64(i64::MIN)), "-9223372036854775808");
    assert_eq!(parse_i64(&chars("+17")), Some(17));
    assert_eq!(parse_i64(&chars("-9223372036854775808")), Some(i64::MIN));
    assert_eq!(parse_i64(&chars("9223372036854775808")), None);
    assert_eq!(parse_i64(&chars("")), None);
    assert_eq!(parse_i64(&chars("-")), None);
    assert_eq!(parse_i64(&chars("12a")), None);
    assert_eq!(parse_usize(&chars("+5")), Some(5));
    assert_eq!(parse_usize(&chars("007")), Some(7));
    assert_eq!(parse_usize(&chars("-1")), None);
    assert_eq!(parse_usize(&chars("")), None);
    assert_eq!(parse_usize(&chars("99999999999999999999999")), None);
}

#[test]
fn parse_of_format_gives_the_number_back() {
    for v in [0i64, 1, -1, 42, -1000, i64::MAX, i64::MIN, 9_007_199_254_740_993] {
        assert_eq!(parse_i64(&format_i64(v)), Some(v));
    }
}

#[test]
fn string_from_chars_keeps_text() {
    assert_eq!(string_from_chars(&chars("héllo, wörld")), "héllo, wörld");
    assert_eq!(string_from_chars(&[]), "");
}

#[test]
fn new_framebuffer_is_desktop_colored_and_screen_black() {
    let fb = small_fb(4, 3);
    assert_eq!(fb.backbuffer.len(), 12);
    assert!(fb.backbuffer.iter().all(|&p| p == palette::DESKTOP_BOTTOM));
    assert!(fb.bga.screen.iter().all(|&p| p == 0));
    assert!(fb.clip.is_none());
}

#[test]
fn fill_rect_paints_only_its_rectangle() {
    let mut fb = small_fb(4, 3);
    let red = Color::from_rgb(255, 0, 0);
    fb.fill_rect(1, 1, 2, 1, red);
    for i in 0..12 {
        let expected = if i == 5 || i == 6 { red.to_u32() } else { palette::DESKTOP_BOTTOM };
        assert_eq!(fb.backbuffer[i], expected, "pixel {}", i);
    }
    // A rectangle partly off the screen is cut to it.
    fb.fill_rect(-5, -5, 6, 6, red);
    assert_eq!(fb.backbuffer[0], red.to_u32());
    assert_eq!(fb.backbuffer[1], palette::DESKTOP_BOTTOM);
}

#[test]
fn clipping_limits_drawing() {
    let mut fb = small_fb(4, 3);
    fb.set_clip(0, 0, 1, 1);
    assert_eq!(fb.clip, Some((0, 0, 1, 1)));
    let green = Color::from_rgb(0, 255, 0);
    fb.fill_rect(0, 0, 4, 3, green);
    assert_eq!(fb.backbuffer.iter().filter(|&&p| p == green.to_u32()).count(), 1);
    fb.clear_clip();
    fb.draw_pixel(3, 2, green);
    assert_eq!(fb.backbuffer[11], green.to_u32());
    // Off-screen pixels are ignored.
    fb.draw_pixel(4, 0, green);
    fb.draw_pixel(-1, 0, green);
    assert_eq!(fb.backbuffer.iter().filter(|&&p| p == green.to_u32()).count(), 2);
}

#[test]
fn set_clip_is_cut_to_the_screen() {
    let mut fb = small_fb(4, 3);
    fb.set_clip(-2, 1, 10, 10);
    assert_eq!(fb.clip, Some((0, 1, 4, 3)));
}

#[test]
fn draw_pixel_blends_translucent_colors() {
    let mut fb = small_fb(2, 1);
    fb.clear(Color::from_rgb(0, 0, 0));
    fb.draw_pixel(0, 0, Color::from_argb(128, 255, 0, 100));
    assert_eq!(fb.backbuffer[0], 0xFF80_0032);
    fb.draw_pixel(1, 0, Color::from_argb(0, 255, 255, 255));
    assert_eq!(fb.backbuffer[1], 0xFF00_0000);
}

#[test]
fn flush_shows_the_back_buffer() {
    let mut fb = small_fb(5, 4);
    fb.fill_rect(0, 0, 2, 2, Color::from_rgb(1, 2, 3));
    fb.flush();
    assert_eq!(fb.bga.screen, fb.backbuffer);
}

#[test]
fn flush_rect_shows_only_its_rectangle() {
    let mut fb = small_fb(4, 4);
    fb.flush_rect(1, 1, 2, 2);
    for row in 0..4 {
        for col in 0..4 {
            let i = row * 4 + col;
            let inside = (1..3).contains(&row) && (1..3).contains(&col);
            let expected = if inside { palette::DESKTOP_BOTTOM } else { 0 };
            assert_eq!(fb.bga.screen[i], expected);
        }
    }
}

#[test]
fn draw_rect_outlines() {
    let mut fb = small_fb(5, 5);
    fb.clear(Color::from_rgb(0, 0, 0));
    let w = Color::from_rgb(255, 255, 255);
    fb.draw_rect(1, 1, 3, 3, w);
    let white = w.to_u32();
    for row in 0..5 {
        for col in 0..5 {
            let on_edge = (1..4).contains(&row) && (1..4).contains(&col) && !(row == 2 && col == 2);
            let expected = if on_edge { white } else { 0xFF00_0000 };
            assert_eq!(fb.backbuffer[row * 5 + col], expected, "({}, {})", col, row);
        }
    }
}

#[test]
fn cursor_arrow_tip_is_black_and_inside_white() {
    let mut fb = small_fb(20, 20);
    fb.clear(Color::from_rgb(0, 128, 0));
    fb.draw_cursor(0, 0);
    assert_eq!(fb.backbuffer[0], palette::BLACK);
    assert_eq!(fb.backbuffer[2 * 20 + 1], palette::WHITE);
    assert_eq!(fb.backbuffer[2 * 20 + 2], palette::BLACK);
    assert_eq!(fb.backbuffer[19], 0xFF00_8000);
}

#[test]
fn draw_char_paints_glyph_bits() {
    let mut fb = small_fb(8, 8);
    fb.clear(Color::from_rgb(0, 0, 0));
    fb.draw_char(0, 0, 'A', Color::from_rgb(255, 255, 255));
    // the top row of 'A' lights columns 2 and 3
    assert_eq!(fb.backbuffer[2], palette::WHITE);
    assert_eq!(fb.backbuffer[3], palette::WHITE);
    assert_eq!(fb.backbuffer[4], palette::BLACK);
    let glyph = get_glyph('A');
    for row in 0..8 {
        for col in 0..8 {
            let set = glyph[row] & (0x80 >> col) != 0;
            let expected = if set { palette::WHITE } else { palette::BLACK };
            assert_eq!(fb.backbuffer[row * 8 + col], expected);
        }
    }
}

#[test]
fn draw_string_advances_by_glyph_width() {
    let mut fb = small_fb(16, 8);
    fb.clear(Color::from_rgb(0, 0, 0));
    fb.draw_string(0, 0, "AA", Color::from_rgb(255, 255, 255));
    for row in 0..8 {
        for col in 0..8 {
            assert_eq!(fb.backbuffer[row * 16 + col], fb.backbuffer[row * 16 + col + 8]);
        }
    }
    assert!(fb.backbuffer.iter().any(|&p| p == palette::WHITE));
}
