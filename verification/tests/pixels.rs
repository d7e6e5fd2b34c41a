use mouros::bga::BgaDevice;
use mouros::color::Color;
use mouros::framebuffer::Framebuffer;
use mouros::icons::{draw_icon_16, draw_icon_24, AppIcon};
use mouros::render::label_button;

fn screen(w: usize, h: usize) -> Framebuffer {
    Framebuffer::new(BgaDevice::new(w, h, 0))
}

fn pixel(fb: &Framebuffer, x: usize, y: usize) -> u32 {
    fb.backbuffer[y * fb.width + x]
}

fn rgb(r: u8, g: u8, b: u8) -> u32 {
    Color::from_rgb(r, g, b).to_u32()
}

#[test]
fn terminal_icon_16_has_its_shapes() {
    let mut fb = screen(64, 64);
    let before = pixel(&fb, 30, 30);
    draw_icon_16(&mut fb, 10, 10, AppIcon::Terminal);
    // the outline, the face inside it, the prompt and the cursor
    assert_eq!(pixel(&fb, 10, 10), rgb(71, 85, 105));
    assert_eq!(pixel(&fb, 11, 11), rgb(15, 23, 42));
    assert_eq!(pixel(&fb, 13, 15), rgb(34, 197, 94));
    assert_eq!(pixel(&fb, 17, 19), rgb(56, 189, 248));
    // nothing outside the 16 by 16 box
    assert_eq!(pixel(&fb, 30, 30), before);
    assert_eq!(pixel(&fb, 26, 10), before);
}

#[test]
fn terminal_icon_24_has_its_shapes() {
    let mut fb = screen(64, 64);
    let before = pixel(&fb, 0, 0);
    draw_icon_24(&mut fb, 5, 5, AppIcon::Terminal);
    assert_eq!(pixel(&fb, 6, 6), rgb(71, 85, 105));
    assert_eq!(pixel(&fb, 9, 9), rgb(239, 68, 68));
    assert_eq!(pixel(&fb, 14, 20), rgb(56, 189, 248));
    assert_eq!(pixel(&fb, 0, 0), before);
    assert_eq!(pixel(&fb, 5, 5), before);
}

#[test]
fn label_button_paints_face_border_and_centred_text() {
    let mut fb = screen(120, 60);
    let red = Color::from_rgb(220, 38, 38);
    label_button(&mut fb, 10, 10, 80, 22, "", red);
    assert_eq!(pixel(&fb, 10, 10), rgb(220, 38, 38));
    assert_eq!(pixel(&fb, 89, 31), rgb(220, 38, 38));
    assert_eq!(pixel(&fb, 20, 20), rgb(30, 41, 59));
    let mut fb2 = screen(120, 60);
    label_button(&mut fb2, 10, 10, 80, 22, "MM", red);
    // the label is 16 pixels wide, centred: columns 42 to 57, from row 16
    let lit = (16..24).any(|y| (42..58).any(|x| pixel(&fb2, x, y) == rgb(241, 245, 249)));
    assert!(lit);
    let outside = (16..24).any(|y| (20..42).any(|x| pixel(&fb2, x, y) == rgb(241, 245, 249)));
    assert!(!outside);
}

#[test]
fn app_icon_from_number() {
    assert_eq!(AppIcon::from(0usize), AppIcon::Terminal);
    assert_eq!(AppIcon::from(3usize), AppIcon::Notepad);
    assert_eq!(AppIcon::from(9usize), AppIcon::Doom);
    assert_eq!(AppIcon::from(10usize), AppIcon::Power);
    assert_eq!(AppIcon::from(usize::MAX), AppIcon::Power);
}
