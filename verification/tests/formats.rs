use mouros::elf::{elf_error_message, load_elf, load_overflows, ElfError};
use mouros::mp3::{decode_all, ChannelMode, Id3Metadata, Mp3StreamInfo, Mp3Track};

fn put16(b: &mut [u8], at: usize, v: u16) {
    b[at..at + 2].copy_from_slice(&v.to_le_bytes());
}

fn put32(b: &mut [u8], at: usize, v: u32) {
    b[at..at + 4].copy_from_slice(&v.to_le_bytes());
}

fn put64(b: &mut [u8], at: usize, v: u64) {
    b[at..at + 8].copy_from_slice(&v.to_le_bytes());
}

/// An executable with one loadable segment of `filesz` file bytes (at file
/// offset 120, holding 1, 2, 3, ...) and `memsz` memory bytes at `vaddr`.
fn elf(vaddr: u64, filesz: u64, memsz: u64, entry: u64) -> Vec<u8> {
    let mut b = vec![0u8; 120 + 4];
    b[0..4].copy_from_slice(&[0x7F, b'E', b'L', b'F']);
    b[4] = 2;
    b[5] = 1;
    put16(&mut b, 18, 0x3E);
    put64(&mut b, 24, entry);
    put64(&mut b, 32, 64);
    put16(&mut b, 54, 56);
    put16(&mut b, 56, 1);
    put32(&mut b, 64, 1);
    put64(&mut b, 64 + 8, 120);
    put64(&mut b, 64 + 16, vaddr);
    put64(&mut b, 64 + 32, filesz);
    put64(&mut b, 64 + 40, memsz);
    b[120..124].copy_from_slice(&[1, 2, 3, 4]);
    b
}

#[test]
fn elf_loads_segment_into_zeroed_image() {
    let b = elf(0x40_0000, 4, 8, 0x40_0002);
    assert!(!load_overflows(&b));
    let img = load_elf(&b).unwrap();
    // The 8-byte span rounds up to one page, plus one more page.
    assert_eq!(img.memory.len(), 8192);
    assert_eq!(&img.memory[0..4], &[1, 2, 3, 4]);
    assert!(img.memory[4..].iter().all(|&x| x == 0));
    assert_eq!(img.entry_offset, 2);
}

#[test]
fn elf_errors_each_have_their_input() {
    assert_eq!(load_elf(&[0u8; 10]).err(), Some(ElfError::TooSmall));
    assert_eq!(load_elf(&[0u8; 64]).err(), Some(ElfError::BadMagic));
    let mut b = elf(0x1000, 4, 8, 0x1000);
    b[4] = 1;
    assert_eq!(load_elf(&b).err(), Some(ElfError::NotLittleEndian64));
    let mut b = elf(0x1000, 4, 8, 0x1000);
    put16(&mut b, 18, 0x28);
    assert_eq!(load_elf(&b).err(), Some(ElfError::NotX86_64));
    let b = elf(0x1000, 4, 8, 0x1000);
    assert_eq!(load_elf(&b[..100]).err(), Some(ElfError::HeaderOutOfBounds));
    let mut b = elf(0x1000, 4, 8, 0x1000);
    put16(&mut b, 56, 0);
    assert_eq!(load_elf(&b).err(), Some(ElfError::NoLoadSegments));
    let mut b = elf(0x1000, 4, 8, 0x1000);
    put32(&mut b, 64, 2);
    assert_eq!(load_elf(&b).err(), Some(ElfError::NoLoadSegments));
    let b = elf(0x1000, 4, 11 * 1024 * 1024, 0x1000);
    assert_eq!(load_elf(&b).err(), Some(ElfError::TooLarge));
    let b = elf(0x1000, 400, 8, 0x1000);
    assert_eq!(load_elf(&b).err(), Some(ElfError::SegmentOutOfBounds));
    let b = elf(0x1000, 4, 8, 0x1000 + 8192);
    assert_eq!(load_elf(&b).err(), Some(ElfError::EntryOutOfBounds));
}

#[test]
fn elf_overflowing_headers_are_flagged() {
    let b = elf(u64::MAX - 1, 4, 10, 0);
    assert!(load_overflows(&b));
    let b = elf(0x1000, 4, 8, 0);
    assert!(load_overflows(&b));
}

#[test]
fn elf_error_messages() {
    assert_eq!(elf_error_message(ElfError::TooSmall), "ELF file too small");
    assert_eq!(elf_error_message(ElfError::BadMagic), "Invalid ELF magic header");
    assert_eq!(elf_error_message(ElfError::TooLarge), "ELF executable memory requirement too large (>10MB)");
    assert_eq!(elf_error_message(ElfError::EntryOutOfBounds), "Entry point address out of bounds");
}

fn frame(id: &[u8; 4], body: &[u8]) -> Vec<u8> {
    let mut f = id.to_vec();
    f.extend_from_slice(&(body.len() as u32).to_be_bytes());
    f.extend_from_slice(&[0, 0]);
    f.extend_from_slice(body);
    f
}

fn id3v23(frames: &[Vec<u8>], padding: usize) -> Vec<u8> {
    let body: Vec<u8> = frames.concat();
    let size = body.len() + padding;
    let mut d = b"ID3".to_vec();
    d.extend_from_slice(&[3, 0, 0]);
    d.extend_from_slice(&[((size >> 21) & 0x7F) as u8, ((size >> 14) & 0x7F) as u8, ((size >> 7) & 0x7F) as u8, (size & 0x7F) as u8]);
    d.extend_from_slice(&body);
    d.extend(std::iter::repeat(0u8).take(padding));
    d
}

#[test]
fn id3v2_text_frames_are_read() {
    let data = id3v23(&[
        frame(b"TIT2", b"\x00Hello"),
        frame(b"TPE1", b"\x03Caf\xC3\xA9"),
        frame(b"TALB", &[1, 0xFF, 0xFE, b'A', 0, b'l', 0, 0, 0]),
        frame(b"TYER", b"\x001999"),
        frame(b"TCON", b"\x00Rock"),
        frame(b"TXXX", b"\x00ignored"),
    ], 20);
    let m = Id3Metadata::parse(&data);
    assert_eq!(m.title.as_deref(), Some("Hello"));
    assert_eq!(m.artist.as_deref(), Some("Café"));
    assert_eq!(m.album.as_deref(), Some("Al"));
    assert_eq!(m.year.as_deref(), Some("1999"));
    assert_eq!(m.genre.as_deref(), Some("Rock"));
    assert_eq!(m.tag_size, data.len());
}

#[test]
fn id3_latin1_fallback_and_utf16_surrogates() {
    // Not valid UTF-8: read as ISO-8859-1.
    let data = id3v23(&[frame(b"TIT2", b"\x00Caf\xE9"), frame(b"TPE1", &[1, 0x3D, 0xD8, 0x00, 0xDE])], 0);
    let m = Id3Metadata::parse(&data);
    assert_eq!(m.title.as_deref(), Some("Café"));
    assert_eq!(m.artist.as_deref(), Some("\u{1F600}"));
}

#[test]
fn id3v1_fills_missing_fields() {
    let mut data = vec![0u8; 200];
    let t = data.len() - 128;
    data[t..t + 3].copy_from_slice(b"TAG");
    data[t + 3..t + 8].copy_from_slice(b"Title");
    data[t + 33..t + 41].copy_from_slice(b" Artist ");
    data[t + 93..t + 97].copy_from_slice(b"2001");
    let m = Id3Metadata::parse(&data);
    assert_eq!(m.title.as_deref(), Some("Title"));
    assert_eq!(m.artist.as_deref(), Some("Artist"));
    assert_eq!(m.album, None);
    assert_eq!(m.year.as_deref(), Some("2001"));
    assert_eq!(m.tag_size, 0);
}

#[test]
fn untagged_data_has_no_fields() {
    let m = Id3Metadata::parse(&[1, 2, 3]);
    assert_eq!(m.title, None);
    assert_eq!(m.tag_size, 0);
    let e = Id3Metadata::empty();
    assert_eq!(e.artist, None);
}

#[test]
fn stream_info_from_first_frame() {
    let i = Mp3StreamInfo::from_first_frame(10_000, 100, (417, Some((44100, 128, false))));
    assert_eq!(i.sample_rate, 44100);
    assert_eq!(i.bitrate_kbps, 128);
    assert_eq!(i.channels, ChannelMode::Mono);
    assert_eq!(i.total_frames, 9900 / 417);
    assert_eq!(i.duration_seconds as u64, (9900 / 417) * 1152 / 44100);
    assert_eq!(i.file_size_bytes, 10_000);
    let none = Mp3StreamInfo::from_first_frame(10_000, 100, (0, None));
    assert_eq!((none.sample_rate, none.bitrate_kbps, none.channels, none.total_frames), (44100, 96, ChannelMode::Stereo, 0));
}

#[test]
fn scan_of_data_without_frames() {
    let junk = vec![0u8; 4000];
    let i = Mp3StreamInfo::scan(&junk, 0);
    assert_eq!(i.total_frames, 0);
    assert_eq!(i.file_size_bytes, 4000);
    let t = Mp3Track::new(3, "junk.mp3", Box::leak(junk.into_boxed_slice()));
    assert_eq!(t.id, 3);
    assert_eq!(t.display_title(), "junk.mp3");
    assert_eq!(t.display_artist(), "Unknown Artist");
}

#[test]
fn decoding_junk_finds_no_frames() {
    let junk = vec![0u8; 3000];
    assert_eq!(decode_all(&junk, 0), (0, 0));
    assert_eq!(decode_all(&junk, 5000), (0, 0));
}

/// An MPEG-1 Layer III frame header: 128 kbps, 44.1 kHz, stereo, no padding
/// (417 bytes per frame), followed by a silent body.
fn mp3_frames(n: usize) -> Vec<u8> {
    let mut d = Vec::new();
    for _ in 0..n {
        let mut f = vec![0u8; 417];
        f[0..4].copy_from_slice(&[0xFF, 0xFB, 0x90, 0x00]);
        d.extend_from_slice(&f);
    }
    d
}

#[test]
fn decoding_silent_frames() {
    let d = mp3_frames(8);
    let (frames, samples) = decode_all(&d, 0);
    assert!(frames <= d.len());
    assert!(samples <= 1152 * frames);
    let first = Mp3StreamInfo::scan(&d, 0);
    assert_eq!(first.file_size_bytes, d.len());
}
