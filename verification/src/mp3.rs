//! MP3 files: the song titles, artists and the like in their ID3 tags (the
//! ID3v2 text frames at the start, the fixed ID3v1 block at the end), and
//! the stream facts of their first audio frame.
use vstd::prelude::*;
use vstd::utf8::{decode_utf8, valid_utf8};
use crate::chars::{trim, trim_chars};
use crate::text::string_from_chars;

verus! {

/// Converts `bytes` with `String::from_utf8`. Claimed, as its documentation
/// says: a string exactly when the bytes are valid UTF-8, holding the
/// characters they encode.
#[verifier::external_body]
fn string_from_utf8(bytes: Vec<u8>) -> (r: Option<String>)
    ensures
        match r {
            Some(s) => valid_utf8(bytes@) && s@ == decode_utf8(bytes@),
            None => !valid_utf8(bytes@),
        },
{
    String::from_utf8(bytes).ok()
}

/// Converts `v` with `char::from_u32`. Claimed, as its documentation says:
/// a character exactly when `v` is a Unicode scalar value (at most
/// `0x10FFFF` and not a surrogate), the character with that number.
#[verifier::external_body]
fn char_from_u32(v: u32) -> (c: Option<char>)
    ensures
        c is Some <==> (v <= 0x10FFFF && (v < 0xD800 || v > 0xDFFF)),
        match c {
            Some(ch) => ch as u32 == v,
            None => true,
        },
{
    char::from_u32(v)
}

/// The text fields of a tag.
pub struct TagText {
    pub title: Option<Seq<char>>,
    pub artist: Option<Seq<char>>,
    pub album: Option<Seq<char>>,
    pub year: Option<Seq<char>>,
    pub genre: Option<Seq<char>>,
}

/// The metadata of an MP3 file.
#[derive(Clone)]
pub struct Id3Metadata {
    pub title: Option<String>,
    pub artist: Option<String>,
    pub album: Option<String>,
    pub year: Option<String>,
    pub genre: Option<String>,
    /// The bytes the ID3v2 tag takes at the start of the file (0 without one).
    pub tag_size: usize,
}

/// The characters of an optional string.
pub open spec fn opt_text(o: Option<String>) -> Option<Seq<char>> {
    match o {
        Some(s) => Some(s@),
        None => None,
    }
}

impl Id3Metadata {
    /// The text fields as character sequences.
    pub open spec fn text(&self) -> TagText {
        TagText {
            title: opt_text(self.title),
            artist: opt_text(self.artist),
            album: opt_text(self.album),
            year: opt_text(self.year),
            genre: opt_text(self.genre),
        }
    }
}

/// No fields set.
pub open spec fn no_text() -> TagText {
    TagText { title: None, artist: None, album: None, year: None, genre: None }
}

/// The bytes of `s` from index `i` up to the first zero byte.
pub open spec fn until_zero(s: Seq<u8>, i: int) -> Seq<u8>
    decreases s.len() - i,
{
    if 0 <= i < s.len() && s[i] != 0 { seq![s[i]] + until_zero(s, i + 1) } else { Seq::empty() }
}

/// Bytes read as ISO-8859-1: each byte is the character with its number.
pub open spec fn latin1(s: Seq<u8>) -> Seq<char> {
    s.map_values(|b: u8| b as char)
}

/// The little-endian 16-bit units of `s` from index `i`, up to a zero unit
/// or the last whole pair.
pub open spec fn utf16_units(s: Seq<u8>, i: int) -> Seq<u16>
    decreases s.len() - i,
{
    if 0 <= i && i + 1 < s.len() {
        let code = s[i] as int + s[i + 1] as int * 256;
        if code == 0 { Seq::empty() } else { seq![code as u16] + utf16_units(s, i + 2) }
    } else {
        Seq::empty()
    }
}

/// UTF-16 units decoded, an unpaired surrogate becoming a space (as
/// `char::decode_utf16` with errors replaced by `' '`).
pub open spec fn utf16_text(u: Seq<u16>) -> Seq<char>
    decreases u.len(),
{
    if u.len() == 0 {
        Seq::empty()
    } else if u[0] < 0xD800 || u[0] >= 0xE000 {
        seq![u[0] as char] + utf16_text(u.drop_first())
    } else if u[0] < 0xDC00 && u.len() >= 2 && 0xDC00 <= u[1] && u[1] < 0xE000 {
        seq![((u[0] - 0xD800) * 1024 + (u[1] - 0xDC00) + 0x10000) as char] + utf16_text(u.skip(2))
    } else {
        seq![' '] + utf16_text(u.drop_first())
    }
}

/// The text of a text frame's body: an encoding byte (0 ISO-8859-1 or
/// 3 UTF-8, falling back to ISO-8859-1 when not valid UTF-8; 1 or 2 UTF-16
/// with an optional byte-order mark; others ISO-8859-1), then the text up to
/// a terminating zero.
pub open spec fn frame_text(body: Seq<u8>) -> Seq<char> {
    let enc = body[0];
    if enc == 0 || enc == 3 {
        let t = until_zero(body, 1);
        if valid_utf8(t) { decode_utf8(t) } else { latin1(t) }
    } else if enc == 1 || enc == 2 {
        let start: int = if body.len() >= 3 && ((body[1] == 0xFE && body[2] == 0xFF) || (body[1] == 0xFF && body[2] == 0xFE)) { 3 } else { 1 };
        utf16_text(utf16_units(body, start))
    } else {
        latin1(until_zero(body, 1))
    }
}

/// A 28-bit "syncsafe" size: four bytes of 7 bits each, most significant first.
pub open spec fn syncsafe(s: Seq<u8>, i: int) -> int {
    (s[i] % 128) as int * 2097152 + (s[i + 1] % 128) as int * 16384 + (s[i + 2] % 128) as int * 128 + (s[i + 3] % 128) as int
}

/// A big-endian 32-bit number.
pub open spec fn be32(s: Seq<u8>, i: int) -> int {
    s[i] as int * 16777216 + s[i + 1] as int * 65536 + s[i + 2] as int * 256 + s[i + 3] as int
}

/// Whether the four bytes of `s` at `i` spell `a b c d`.
pub open spec fn id_is(s: Seq<u8>, i: int, a: u8, b: u8, c: u8, d: u8) -> bool {
    s[i] == a && s[i + 1] == b && s[i + 2] == c && s[i + 3] == d
}

/// The fields after the frame with identifier at `i` and body `body`: the
/// title (`TIT2`), artist (`TPE1`), album (`TALB`), year (`TYER` or `TDRC`)
/// or genre (`TCON`) takes the body's text when the body has more than the
/// encoding byte and the text is not empty.
pub open spec fn with_frame(f: TagText, data: Seq<u8>, i: int, body: Seq<u8>) -> TagText {
    if body.len() > 1 && frame_text(body).len() > 0 {
        let t = Some(frame_text(body));
        if id_is(data, i, 84, 73, 84, 50) { TagText { title: t, ..f } }
        else if id_is(data, i, 84, 80, 69, 49) { TagText { artist: t, ..f } }
        else if id_is(data, i, 84, 65, 76, 66) { TagText { album: t, ..f } }
        else if id_is(data, i, 84, 89, 69, 82) || id_is(data, i, 84, 68, 82, 67) { TagText { year: t, ..f } }
        else if id_is(data, i, 84, 67, 79, 78) { TagText { genre: t, ..f } }
        else { f }
    } else {
        f
    }
}

/// The size of the ID3v2 frame at `pos` (syncsafe from version 4, plain
/// big-endian before).
pub open spec fn frame_size(data: Seq<u8>, pos: int, v4: bool) -> int {
    if v4 { syncsafe(data, pos + 4) } else { be32(data, pos + 4) }
}

/// The fields read from the ID3v2 frames from `pos` to `end`: frames are
/// read while a 10-byte frame header fits, the header's first byte is not
/// zero (padding), and the frame has a size and fits.
pub open spec fn frames_from(data: Seq<u8>, v4: bool, end: int, pos: int, f: TagText) -> TagText
    decreases end - pos,
{
    if pos < 0 || pos + 10 > end || end > data.len() || data[pos] == 0 {
        f
    } else {
        let size = frame_size(data, pos, v4);
        if size == 0 || pos + 10 + size > end {
            f
        } else {
            frames_from(data, v4, end, pos + 10 + size, with_frame(f, data, pos, data.subrange(pos + 10, pos + 10 + size)))
        }
    }
}

/// Whether `data` starts with an ID3v2 header.
pub open spec fn has_v2(data: Seq<u8>) -> bool {
    data.len() >= 10 && data[0] == 73 && data[1] == 68 && data[2] == 51
}

/// The size of the ID3v2 tag, header included (0 without one).
pub open spec fn v2_size(data: Seq<u8>) -> int {
    if has_v2(data) { 10 + syncsafe(data, 6) } else { 0 }
}

/// The fields of the ID3v2 tag of `data`.
pub open spec fn v2_text(data: Seq<u8>) -> TagText {
    if has_v2(data) {
        let end = if v2_size(data) < data.len() { v2_size(data) } else { data.len() as int };
        frames_from(data, data[3] >= 4, end, 10, no_text())
    } else {
        no_text()
    }
}

/// A fixed-width ID3v1 field: the bytes up to the first zero as
/// ISO-8859-1, without surrounding whitespace.
pub open spec fn v1_field(data: Seq<u8>, from: int, to: int) -> Seq<char> {
    trim(latin1(until_zero(data.subrange(from, to), 0)))
}

/// `o`, or else `v` when it is not empty.
pub open spec fn or_nonempty(o: Option<Seq<char>>, v: Seq<char>) -> Option<Seq<char>> {
    if o is None && v.len() > 0 { Some(v) } else { o }
}

/// The fields of `data`'s tags: those of ID3v2, and when the title or the
/// artist is missing, the missing title, artist, album and year from an
/// ID3v1 block (`TAG` in the last 128 bytes).
pub open spec fn tag_text(data: Seq<u8>) -> TagText {
    let f = v2_text(data);
    if (f.title is None || f.artist is None) && data.len() >= 128 {
        let t = data.len() - 128;
        if data[t] == 84 && data[t + 1] == 65 && data[t + 2] == 71 {
            TagText {
                title: or_nonempty(f.title, v1_field(data, t + 3, t + 33)),
                artist: or_nonempty(f.artist, v1_field(data, t + 33, t + 63)),
                album: or_nonempty(f.album, v1_field(data, t + 63, t + 93)),
                year: or_nonempty(f.year, v1_field(data, t + 93, t + 97)),
                genre: f.genre,
            }
        } else {
            f
        }
    } else {
        f
    }
}

/// Whether the four bytes of `data` at `p` spell a year frame's identifier,
/// `TYER` (ID3v2.3) or `TDRC` (ID3v2.4).
pub open spec fn is_year_id(data: Seq<u8>, p: int) -> bool {
    (data[p] == 84 && data[p + 1] == 89 && data[p + 2] == 69 && data[p + 3] == 82)
        || (data[p] == 84 && data[p + 1] == 68 && data[p + 2] == 82 && data[p + 3] == 67)
}

/// Whether no four bytes of `data` from `from` up to `end` spell a year
/// frame's identifier.
pub open spec fn no_year_id(data: Seq<u8>, from: int, end: int) -> bool {
    forall|p: int| from <= p && p + 4 <= end ==> !#[trigger] is_year_id(data, p)
}

/// Frames none of whose identifiers is a year frame's leave the year as it
/// was.
proof fn lemma_frames_keep_year(data: Seq<u8>, v4: bool, end: int, pos: int, f: TagText)
    requires
        no_year_id(data, pos, end),
    ensures
        frames_from(data, v4, end, pos, f).year == f.year,
    decreases end - pos,
{
    if !(pos < 0 || pos + 10 > end || end > data.len() || data[pos] == 0) {
        let size = frame_size(data, pos, v4);
        if !(size == 0 || pos + 10 + size > end) {
            let body = data.subrange(pos + 10, pos + 10 + size);
            assert(!is_year_id(data, pos));
            let g = with_frame(f, data, pos, body);
            assert(g.year == f.year);
            lemma_frames_keep_year(data, v4, end, pos + 10 + size, g);
        }
    }
}

/// A year frame, `TDRC` exactly as `TYER`, sets the year: reading the
/// frames from `pos`, where a whole frame with either identifier stands
/// whose text is not empty, and no later bytes of the tag spell a year
/// frame's identifier, gives that text as the year, whatever the fields
/// read before.
pub proof fn lemma_year_frame_sets_year(data: Seq<u8>, v4: bool, end: int, pos: int, f: TagText)
    requires
        0 <= pos,
        pos + 10 <= end <= data.len(),
        data[pos] == 84,
        (data[pos + 1] == 89 && data[pos + 2] == 69 && data[pos + 3] == 82)
            || (data[pos + 1] == 68 && data[pos + 2] == 82 && data[pos + 3] == 67),
        frame_size(data, pos, v4) > 1,
        pos + 10 + frame_size(data, pos, v4) <= end,
        frame_text(data.subrange(pos + 10, pos + 10 + frame_size(data, pos, v4))).len() > 0,
        no_year_id(data, pos + 10 + frame_size(data, pos, v4), end),
    ensures
        frames_from(data, v4, end, pos, f).year
            == Some(frame_text(data.subrange(pos + 10, pos + 10 + frame_size(data, pos, v4)))),
{
    let size = frame_size(data, pos, v4);
    let body = data.subrange(pos + 10, pos + 10 + size);
    let g = with_frame(f, data, pos, body);
    assert(g.year == Some(frame_text(body)));
    lemma_frames_keep_year(data, v4, end, pos + 10 + size, g);
}

/// Reading a whole text frame with text: its identifier picks the field
/// it fills (`TIT2` the title, `TPE1` the artist, `TALB` the album, `TYER`
/// or `TDRC` the year, `TCON` the genre), and the frames after it are read
/// on from there.
pub proof fn lemma_text_frame_fills_field(data: Seq<u8>, v4: bool, end: int, pos: int, f: TagText)
    requires
        0 <= pos,
        pos + 10 <= end <= data.len(),
        data[pos] == 84,
        frame_size(data, pos, v4) > 1,
        pos + 10 + frame_size(data, pos, v4) <= end,
        frame_text(data.subrange(pos + 10, pos + 10 + frame_size(data, pos, v4))).len() > 0,
    ensures
        ({
            let next = pos + 10 + frame_size(data, pos, v4);
            let t = Some(frame_text(data.subrange(pos + 10, next)));
            let (b1, b2, b3) = (data[pos + 1], data[pos + 2], data[pos + 3]);
            &&& b1 == 73 && b2 == 84 && b3 == 50 ==> frames_from(data, v4, end, pos, f) == frames_from(data, v4, end, next, TagText { title: t, ..f })
            &&& b1 == 80 && b2 == 69 && b3 == 49 ==> frames_from(data, v4, end, pos, f) == frames_from(data, v4, end, next, TagText { artist: t, ..f })
            &&& b1 == 65 && b2 == 76 && b3 == 66 ==> frames_from(data, v4, end, pos, f) == frames_from(data, v4, end, next, TagText { album: t, ..f })
            &&& b1 == 89 && b2 == 69 && b3 == 82 ==> frames_from(data, v4, end, pos, f) == frames_from(data, v4, end, next, TagText { year: t, ..f })
            &&& b1 == 68 && b2 == 82 && b3 == 67 ==> frames_from(data, v4, end, pos, f) == frames_from(data, v4, end, next, TagText { year: t, ..f })
            &&& b1 == 67 && b2 == 79 && b3 == 78 ==> frames_from(data, v4, end, pos, f) == frames_from(data, v4, end, next, TagText { genre: t, ..f })
        }),
{
}

/// An ID3v2 tag whose first frame is a year frame (`TDRC` exactly as
/// `TYER`) with text, and no later year frame, parses with that text as the
/// year.
pub proof fn lemma_tag_year(data: Seq<u8>)
    requires
        has_v2(data),
        ({
            let end = if v2_size(data) < data.len() { v2_size(data) } else { data.len() as int };
            let size = frame_size(data, 10, data[3] >= 4);
            &&& 20 <= end
            &&& data[10] == 84
            &&& (data[11] == 89 && data[12] == 69 && data[13] == 82) || (data[11] == 68 && data[12] == 82 && data[13] == 67)
            &&& size > 1
            &&& 20 + size <= end
            &&& frame_text(data.subrange(20, 20 + size)).len() > 0
            &&& no_year_id(data, 20 + size, end)
        }),
    ensures
        tag_text(data).year == Some(frame_text(data.subrange(20, 20 + frame_size(data, 10, data[3] >= 4)))),
{
    let end = if v2_size(data) < data.len() { v2_size(data) } else { data.len() as int };
    lemma_year_frame_sets_year(data, data[3] >= 4, end, 10, no_text());
}

/// The bytes of `s` from `i` up to the first zero byte.
fn bytes_until_zero(s: &[u8], i: usize) -> (v: Vec<u8>)
    ensures
        v@ == until_zero(s@, i as int),
{
    let mut v: Vec<u8> = Vec::new();
    let mut k = i;
    while k < s.len() && s[k] != 0
        invariant
            i <= k,
            v@ + until_zero(s@, k as int) == until_zero(s@, i as int),
        decreases s@.len() - k,
    {
        assert(v@.push(s@[k as int]) + until_zero(s@, k + 1) =~= v@ + until_zero(s@, k as int));
        v.push(s[k]);
        k = k + 1;
    }
    assert(v@ + until_zero(s@, k as int) =~= v@);
    v
}

/// `bytes` as ISO-8859-1 text.
fn latin1_string(bytes: &[u8]) -> (s: String)
    ensures
        s@ == latin1(bytes@),
{
    let mut cs: Vec<char> = Vec::new();
    let mut i: usize = 0;
    while i < bytes.len()
        invariant
            i <= bytes@.len(),
            cs@ == latin1(bytes@.take(i as int)),
        decreases bytes@.len() - i,
    {
        cs.push(bytes[i] as char);
        assert(latin1(bytes@.take(i + 1)) =~= latin1(bytes@.take(i as int)).push(bytes@[i as int] as char));
        i = i + 1;
    }
    assert(bytes@.take(bytes@.len() as int) =~= bytes@);
    string_from_chars(cs.as_slice())
}

/// The little-endian 16-bit units of `s` from `i` up to a zero unit.
fn units_from(s: &[u8], i: usize) -> (v: Vec<u16>)
    ensures
        v@ == utf16_units(s@, i as int),
{
    let mut v: Vec<u16> = Vec::new();
    let mut k = i;
    while k < s.len() && s.len() - k > 1
        invariant
            i <= k,
            v@ + utf16_units(s@, k as int) == utf16_units(s@, i as int),
        decreases s@.len() - k,
    {
        let code: u16 = (s[k] as u16) | ((s[k + 1] as u16) << 8);
        let lo = s[k];
        let hi = s[k + 1];
        assert((lo as u16) | ((hi as u16) << 8) == lo as int + hi as int * 256) by (bit_vector);
        if code == 0 {
            assert(utf16_units(s@, k as int) =~= Seq::<u16>::empty());
            assert(v@ + Seq::<u16>::empty() =~= v@);
            return v;
        }
        assert(v@.push(code) + utf16_units(s@, k + 2) =~= v@ + utf16_units(s@, k as int));
        v.push(code);
        k = k + 2;
    }
    assert(v@ + utf16_units(s@, k as int) =~= v@);
    v
}

/// A character is the character of its number.
proof fn lemma_char_of(c: char, w: u32)
    requires
        c as u32 == w,
    ensures
        c == (w as char),
{
}

/// UTF-16 units decoded, unpaired surrogates becoming spaces.
fn utf16_string(u: &[u16]) -> (s: String)
    ensures
        s@ == utf16_text(u@),
{
    let mut cs: Vec<char> = Vec::new();
    let mut i: usize = 0;
    assert(u@.skip(0) =~= u@);
    assert(cs@ + utf16_text(u@) =~= utf16_text(u@));
    while i < u.len()
        invariant
            i <= u@.len(),
            cs@ + utf16_text(u@.skip(i as int)) == utf16_text(u@),
        decreases u@.len() - i,
    {
        let ghost rest = u@.skip(i as int);
        let a = u[i];
        if a < 0xD800 || a >= 0xE000 {
            let w: u32 = a as u32;
            match char_from_u32(w) {
                Some(c) => {
                    proof { lemma_char_of(c, w); }
                    assert((w as char) == (a as char));
                    assert(rest.drop_first() =~= u@.skip(i + 1));
                    assert(cs@.push(c) + utf16_text(u@.skip(i + 1)) =~= cs@ + utf16_text(rest));
                    cs.push(c);
                },
                None => {},
            }
            i = i + 1;
        } else if a < 0xDC00 && i + 1 < u.len() && u[i + 1] >= 0xDC00 && u[i + 1] < 0xE000 {
            let b = u[i + 1];
            let v: u32 = ((a as u32 - 0xD800) * 1024 + (b as u32 - 0xDC00)) + 0x10000;
            match char_from_u32(v) {
                Some(c) => {
                    proof { lemma_char_of(c, v); }
                    assert(rest.skip(2) =~= u@.skip(i + 2));
                    assert(cs@.push(c) + utf16_text(u@.skip(i + 2)) =~= cs@ + utf16_text(rest));
                    cs.push(c);
                },
                None => {},
            }
            i = i + 2;
        } else {
            assert(rest.drop_first() =~= u@.skip(i + 1));
            assert(cs@.push(' ') + utf16_text(u@.skip(i + 1)) =~= cs@ + utf16_text(rest));
            cs.push(' ');
            i = i + 1;
        }
    }
    assert(cs@ + utf16_text(u@.skip(i as int)) =~= cs@);
    string_from_chars(cs.as_slice())
}

impl Id3Metadata {
    /// No tag: no fields and no tag bytes.
    pub fn empty() -> (m: Id3Metadata)
        ensures
            m.text() == no_text(),
            m.tag_size == 0,
    {
        Id3Metadata { title: None, artist: None, album: None, year: None, genre: None, tag_size: 0 }
    }

    /// The text of a text frame's body.
    fn decode_text(body: &[u8]) -> (s: String)
        requires
            body@.len() >= 1,
        ensures
            s@ == frame_text(body@),
    {
        let enc = body[0];
        if enc == 0 || enc == 3 {
            let t = bytes_until_zero(body, 1);
            let fallback = latin1_string(t.as_slice());
            let ghost tv = t@;
            match string_from_utf8(t) {
                Some(s) => s,
                None => fallback,
            }
        } else if enc == 1 || enc == 2 {
            let start: usize = if body.len() >= 3 && ((body[1] == 0xFE && body[2] == 0xFF) || (body[1] == 0xFF && body[2] == 0xFE)) { 3 } else { 1 };
            let units = units_from(body, start);
            utf16_string(units.as_slice())
        } else {
            let t = bytes_until_zero(body, 1);
            latin1_string(t.as_slice())
        }
    }

    /// The fixed-width ID3v1 field in `data[from..to]`.
    fn v1_text(data: &[u8], from: usize, to: usize) -> (s: Vec<char>)
        requires
            from <= to <= data@.len(),
        ensures
            s@ == v1_field(data@, from as int, to as int),
    {
        let mut raw: Vec<u8> = Vec::new();
        let mut k = from;
        while k < to
            invariant
                from <= k <= to <= data@.len(),
                raw@ == data@.subrange(from as int, k as int),
            decreases to - k,
        {
            raw.push(data[k]);
            assert(data@.subrange(from as int, k + 1) =~= data@.subrange(from as int, k as int).push(data@[k as int]));
            k = k + 1;
        }
        let t = bytes_until_zero(raw.as_slice(), 0);
        let mut cs: Vec<char> = Vec::new();
        let mut i: usize = 0;
        while i < t.len()
            invariant
                i <= t@.len(),
                cs@ == latin1(t@.take(i as int)),
            decreases t@.len() - i,
        {
            cs.push(t[i] as char);
            assert(latin1(t@.take(i + 1)) =~= latin1(t@.take(i as int)).push(t@[i as int] as char));
            i = i + 1;
        }
        assert(t@.take(t@.len() as int) =~= t@);
        trim_chars(cs.as_slice())
    }

    /// Reads the ID3v2 frames of `data` from `pos` up to `end` into `self`.
    fn read_frames(&mut self, data: &[u8], v4: bool, end: usize, pos: usize)
        requires
            end <= data@.len(),
        ensures
            final(self).text() == frames_from(data@, v4, end as int, pos as int, old(self).text()),
            final(self).tag_size == old(self).tag_size,
    {
        let mut p = pos;
        while p <= end && end - p >= 10
            invariant
                end <= data@.len(),
                frames_from(data@, v4, end as int, p as int, self.text()) == frames_from(data@, v4, end as int, pos as int, old(self).text()),
                self.tag_size == old(self).tag_size,
            decreases end - p,
        {
            if data[p] == 0 {
                return;
            }
            let b4 = data[p + 4];
            let b5 = data[p + 5];
            let b6 = data[p + 6];
            let b7 = data[p + 7];
            let size: u64 = if v4 {
                assert(((b4 as u64 & 0x7F) << 21) | ((b5 as u64 & 0x7F) << 14) | ((b6 as u64 & 0x7F) << 7) | (b7 as u64 & 0x7F)
                    == (b4 % 128) as int * 2097152 + (b5 % 128) as int * 16384 + (b6 % 128) as int * 128 + (b7 % 128) as int) by (bit_vector);
                ((b4 as u64 & 0x7F) << 21) | ((b5 as u64 & 0x7F) << 14) | ((b6 as u64 & 0x7F) << 7) | (b7 as u64 & 0x7F)
            } else {
                assert(((b4 as u64) << 24) | ((b5 as u64) << 16) | ((b6 as u64) << 8) | (b7 as u64)
                    == b4 as int * 16777216 + b5 as int * 65536 + b6 as int * 256 + b7 as int) by (bit_vector);
                ((b4 as u64) << 24) | ((b5 as u64) << 16) | ((b6 as u64) << 8) | (b7 as u64)
            };
            assert(size == frame_size(data@, p as int, v4));
            if size == 0 || size > (end - p - 10) as u64 {
                return;
            }
            let fsize = size as usize;
            let mut body: Vec<u8> = Vec::new();
            let mut k = p + 10;
            while k < p + 10 + fsize
                invariant
                    p + 10 <= k <= p + 10 + fsize <= end <= data@.len(),
                    body@ == data@.subrange(p + 10, k as int),
                decreases p + 10 + fsize - k,
            {
                body.push(data[k]);
                assert(data@.subrange(p + 10, k + 1) =~= data@.subrange(p + 10, k as int).push(data@[k as int]));
                k = k + 1;
            }
            let ghost before = self.text();
            if body.len() > 1 {
                let text = Self::decode_text(body.as_slice());
                if !text.as_str().is_empty() {
                    let is_t = data[p] == 84;
                    let c1 = data[p + 1];
                    let c2 = data[p + 2];
                    let c3 = data[p + 3];
                    if is_t && c1 == 73 && c2 == 84 && c3 == 50 {
                        self.title = Some(text);
                    } else if is_t && c1 == 80 && c2 == 69 && c3 == 49 {
                        self.artist = Some(text);
                    } else if is_t && c1 == 65 && c2 == 76 && c3 == 66 {
                        self.album = Some(text);
                    } else if is_t && ((c1 == 89 && c2 == 69 && c3 == 82) || (c1 == 68 && c2 == 82 && c3 == 67)) {
                        self.year = Some(text);
                    } else if is_t && c1 == 67 && c2 == 79 && c3 == 78 {
                        self.genre = Some(text);
                    }
                }
            }
            assert(self.text() == with_frame(before, data@, p as int, body@));
            p = p + 10 + fsize;
        }
    }

    /// Reads the tags of `data`: the ID3v2 text frames, then the ID3v1 block
    /// for a missing title or artist.
    pub fn parse(data: &[u8]) -> (m: Id3Metadata)
        ensures
            m.text() == tag_text(data@),
            m.tag_size == v2_size(data@),
    {
        let mut meta = Self::empty();
        let n = data.len();
        if n >= 10 && data[0] == 73 && data[1] == 68 && data[2] == 51 {
            let version = data[3];
            let b6 = data[6];
            let b7 = data[7];
            let b8 = data[8];
            let b9 = data[9];
            assert(((b6 as usize & 0x7F) << 21) | ((b7 as usize & 0x7F) << 14) | ((b8 as usize & 0x7F) << 7) | (b9 as usize & 0x7F)
                == (b6 % 128) as int * 2097152 + (b7 % 128) as int * 16384 + (b8 % 128) as int * 128 + (b9 % 128) as int) by (bit_vector);
            let size = ((b6 as usize & 0x7F) << 21) | ((b7 as usize & 0x7F) << 14) | ((b8 as usize & 0x7F) << 7) | (b9 as usize & 0x7F);
            meta.tag_size = 10 + size;
            let end = if 10 + size < n { 10 + size } else { n };
            meta.read_frames(data, version >= 4, end, 10);
        }
        assert(meta.text() == v2_text(data@));
        let no_title = meta.title.is_none();
        let no_artist = meta.artist.is_none();
        if (no_title || no_artist) && n >= 128 {
            let t = n - 128;
            if data[t] == 84 && data[t + 1] == 65 && data[t + 2] == 71 {
                if meta.title.is_none() {
                    let s = Self::v1_text(data, t + 3, t + 33);
                    if s.len() > 0 {
                        meta.title = Some(string_from_chars(s.as_slice()));
                    }
                }
                if meta.artist.is_none() {
                    let s = Self::v1_text(data, t + 33, t + 63);
                    if s.len() > 0 {
                        meta.artist = Some(string_from_chars(s.as_slice()));
                    }
                }
                if meta.album.is_none() {
                    let s = Self::v1_text(data, t + 63, t + 93);
                    if s.len() > 0 {
                        meta.album = Some(string_from_chars(s.as_slice()));
                    }
                }
                if meta.year.is_none() {
                    let s = Self::v1_text(data, t + 93, t + 97);
                    if s.len() > 0 {
                        meta.year = Some(string_from_chars(s.as_slice()));
                    }
                }
            }
        }
        meta
    }
}


/// What `nanomp3::Decoder::decode` gives for the bytes `data` when the
/// decoder was created fresh and then handed the byte runs of `fed`, in
/// order: the bytes consumed, and for a decoded frame its sample rate,
/// bitrate, whether it is stereo, and the samples it produced per channel.
pub uninterp spec fn decoded(fed: Seq<Seq<u8>>, data: Seq<u8>) -> (usize, Option<(u32, u32, bool, usize)>);

/// What decoding the first frame of `data` with a fresh decoder gives: the
/// bytes consumed, and for a decoded frame its sample rate, bitrate and
/// whether it is stereo.
pub open spec fn first_frame(data: Seq<u8>) -> (usize, Option<(u32, u32, bool)>) {
    let r = decoded(Seq::empty(), data);
    (r.0, match r.1 {
        Some(f) => Some((f.0, f.1, f.2)),
        None => None,
    })
}

/// The decoder type of `nanomp3`.
#[verifier::external_type_specification]
#[verifier::external_body]
pub struct ExDecoder(nanomp3::Decoder);

/// A `nanomp3` decoder together with the byte runs handed to it since it
/// was created (`fed`, a ghost record). Only `new_decoder` makes one and
/// only `decode_frame` hands it bytes, so the record is always the
/// decoder's true input history.
pub struct Mp3Decoder {
    dec: nanomp3::Decoder,
    fed: Ghost<Seq<Seq<u8>>>,
}

impl Mp3Decoder {
    /// The byte runs handed to the decoder since it was created.
    pub closed spec fn fed(&self) -> Seq<Seq<u8>> {
        self.fed@
    }
}

/// A new `nanomp3::Decoder` (`Decoder::new`), which has been handed
/// nothing yet.
#[verifier::external_body]
fn new_decoder() -> (d: Mp3Decoder)
    ensures
        d.fed() == Seq::<Seq<u8>>::empty(),
{
    Mp3Decoder { dec: nanomp3::Decoder::new(), fed: Ghost(Seq::empty()) }
}

/// Decodes the next frame of `data` with the decoder of `d`
/// (`Decoder::decode`, into a buffer of 16-bit samples). Claimed: the
/// result is `decoded` of what the decoder was handed before and of `data`
/// (the decoder is deterministic: its state is a function of its input
/// since `Decoder::new`), `data` is added to that history, no more bytes are
/// consumed than `data` holds, and a frame has at most 1152 samples per
/// channel, as the decoder's source shows.
#[verifier::external_body]
fn decode_frame(d: &mut Mp3Decoder, data: &[u8]) -> (r: (usize, Option<(u32, u32, bool, usize)>))
    ensures
        r == decoded(old(d).fed(), data@),
        final(d).fed() == old(d).fed().push(data@),
        r.0 <= data@.len(),
        r.1 matches Some(f) ==> f.3 <= 1152,
{
    let mut pcm = [0i16; nanomp3::MAX_SAMPLES_PER_FRAME];
    let (consumed, info) = d.dec.decode(data, &mut pcm);
    match info {
        Ok(fi) => (consumed, Some((fi.sample_rate, fi.bitrate, match fi.channels {
            nanomp3::Channels::Mono => false,
            nanomp3::Channels::Stereo => true,
        }, fi.samples_produced))),
        Err(_) => (consumed, None),
    }
}

/// Decodes the first frame of `data` with a fresh decoder: `first_frame`.
fn decode_first_frame(data: &[u8]) -> (r: (usize, Option<(u32, u32, bool)>))
    ensures
        r == first_frame(data@),
{
    let mut d = new_decoder();
    let (consumed, info) = decode_frame(&mut d, data);
    match info {
        Some((rate, bitrate, stereo, _)) => (consumed, Some((rate, bitrate, stereo))),
        None => (consumed, None),
    }
}

/// Decoding `data` frame by frame from byte `pos` on, with a decoder that
/// was handed `fed` before: each step hands the decoder the rest of the
/// bytes and moves past what it consumed; decoding stops at the end or when
/// a step consumes nothing. The result is how many frames were decoded and
/// how many samples per channel they held.
pub open spec fn decode_run(data: Seq<u8>, pos: int, fed: Seq<Seq<u8>>) -> (int, int)
    decreases data.len() - pos,
{
    if pos < 0 || pos >= data.len() {
        (0, 0)
    } else {
        let rest = data.subrange(pos, data.len() as int);
        let r = decoded(fed, rest);
        if r.0 == 0 || r.0 > rest.len() {
            (0, 0)
        } else {
            let tail = decode_run(data, pos + r.0, fed.push(rest));
            match r.1 {
                Some(f) => (tail.0 + 1, tail.1 + f.3),
                None => tail,
            }
        }
    }
}

/// Decodes `data` from byte `start` to its end with a fresh decoder, frame
/// by frame, stopping early only when the decoder makes no progress;
/// returns how many frames were decoded and how many samples per channel
/// they held: `decode_run(data, start, [])`.
pub fn decode_all(data: &[u8], start: usize) -> (r: (usize, usize))
    requires
        data@.len() <= usize::MAX / 1152,
    ensures
        r.0 == decode_run(data@, start as int, Seq::empty()).0,
        r.1 == decode_run(data@, start as int, Seq::empty()).1,
        start >= data@.len() ==> r == (0usize, 0usize),
        start < data@.len() ==> r.0 <= data@.len() - start,
        r.1 <= 1152 * r.0,
{
    if start >= data.len() {
        return (0, 0);
    }
    let mut dec = new_decoder();
    let mut pos = start;
    let mut frames: usize = 0;
    let mut samples: usize = 0;
    let ghost total = decode_run(data@, start as int, Seq::empty());
    loop
        invariant_except_break
            data@.len() <= usize::MAX / 1152,
            start < data@.len(),
            start <= pos <= data@.len(),
            frames <= pos - start,
            samples <= 1152 * frames,
            frames + decode_run(data@, pos as int, dec.fed()).0 == total.0,
            samples + decode_run(data@, pos as int, dec.fed()).1 == total.1,
        ensures
            frames == total.0,
            samples == total.1,
            frames <= data@.len() - start,
            samples <= 1152 * frames,
        decreases data@.len() - pos,
    {
        if pos >= data.len() {
            break;
        }
        let ghost fed = dec.fed();
        let rest = &data[pos..data.len()];
        assert(rest@ == data@.subrange(pos as int, data@.len() as int));
        let (consumed, info) = decode_frame(&mut dec, rest);
        if consumed == 0 {
            break;
        }
        assert(decode_run(data@, pos as int, fed) == {
            let tail = decode_run(data@, pos + consumed, fed.push(rest@));
            match info {
                Some(f) => (tail.0 + 1, tail.1 + f.3),
                None => tail,
            }
        });
        pos = pos + consumed;
        if let Some((_, _, _, n)) = info {
            frames = frames + 1;
            samples = samples + n;
        }
    }
    (frames, samples)
}

/// Mono or stereo.
#[derive(Debug, Clone, Copy, PartialEq, Eq, Structural)]
pub enum ChannelMode {
    Mono,
    Stereo,
}

/// The facts of an MP3 stream shown to the listener.
#[derive(Debug, Clone, Copy, PartialEq, Eq, Structural)]
pub struct Mp3StreamInfo {
    pub sample_rate: u32,
    pub bitrate_kbps: u32,
    pub channels: ChannelMode,
    pub total_frames: usize,
    pub duration_seconds: u32,
    pub file_size_bytes: usize,
}

/// The stream facts of a file of `len` bytes whose audio starts at
/// `offset`, given what decoding its first frame gave (`first`, only
/// consulted when `offset < len`): the frame's rate, bitrate and channels and
/// the audio bytes over the frame's size (313 bytes when it took none) as the
/// frame count; 44100 Hz, 96 kbps, stereo and no frames otherwise. Each frame
/// holds 1152 samples per channel.
pub open spec fn stream_info(len: usize, offset: usize, first: (usize, Option<(u32, u32, bool)>)) -> Mp3StreamInfo {
    let decoded = offset < len && first.1 is Some;
    let (rate, bitrate, stereo) = if decoded { first.1->0 } else { (44100u32, 96u32, true) };
    let frames: int = if decoded { (len - offset) / (if first.0 > 0 { first.0 as int } else { 313 }) } else { 0 };
    Mp3StreamInfo {
        sample_rate: rate,
        bitrate_kbps: bitrate,
        channels: if stereo { ChannelMode::Stereo } else { ChannelMode::Mono },
        total_frames: frames as usize,
        duration_seconds: if rate > 0 { (frames * 1152 / rate as int) as u32 } else { 0 },
        file_size_bytes: len,
    }
}

impl Mp3StreamInfo {
    /// The stream facts from a first-frame decoding result `first` (see
    /// `stream_info`).
    pub fn from_first_frame(len: usize, offset: usize, first: (usize, Option<(u32, u32, bool)>)) -> (i: Mp3StreamInfo)
        requires
            len <= u64::MAX / 1152,
        ensures
            i == stream_info(len, offset, first),
    {
        let mut sample_rate: u32 = 44100;
        let mut bitrate: u32 = 96;
        let mut channels = ChannelMode::Stereo;
        let mut frames: usize = 0;
        if offset < len {
            let (consumed, info) = first;
            if let Some((rate, br, stereo)) = info {
                sample_rate = rate;
                bitrate = br;
                channels = if stereo { ChannelMode::Stereo } else { ChannelMode::Mono };
                let audio_bytes = len - offset;
                let avg = if consumed > 0 { consumed } else { 313 };
                frames = audio_bytes / avg;
            }
        }
        assert(frames <= len) by (nonlinear_arith)
            requires frames == 0 || (offset < len && frames == (len - offset) / (if first.0 > 0 { first.0 as int } else { 313 }));
        let duration_seconds: u32 = if sample_rate > 0 {
            (frames as u64 * 1152 / sample_rate as u64) as u32
        } else {
            0
        };
        Mp3StreamInfo {
            sample_rate,
            bitrate_kbps: bitrate,
            channels,
            total_frames: frames,
            duration_seconds,
            file_size_bytes: len,
        }
    }

    /// Reads the stream facts of `data`, whose audio starts at `data_offset`,
    /// from its first frame.
    pub fn scan(data: &[u8], data_offset: usize) -> (i: Mp3StreamInfo)
        requires
            data@.len() <= u64::MAX / 1152,
        ensures
            data_offset < data@.len() ==> i == stream_info(data@.len() as usize, data_offset,
                first_frame(data@.subrange(data_offset as int, data@.len() as int))),
            data_offset >= data@.len() ==> i == stream_info(data@.len() as usize, data_offset, (0, None)),
    {
        if data_offset < data.len() {
            let mut rest: Vec<u8> = Vec::new();
            let mut k = data_offset;
            while k < data.len()
                invariant
                    data_offset <= k <= data@.len(),
                    rest@ == data@.subrange(data_offset as int, k as int),
                decreases data@.len() - k,
            {
                rest.push(data[k]);
                assert(data@.subrange(data_offset as int, k + 1) =~= data@.subrange(data_offset as int, k as int).push(data@[k as int]));
                k = k + 1;
            }
            let first = decode_first_frame(rest.as_slice());
            Self::from_first_frame(data.len(), data_offset, first)
        } else {
            Self::from_first_frame(data.len(), data_offset, (0, None))
        }
    }
}

/// A bundled MP3 file with its tags and stream facts.
pub struct Mp3Track {
    pub id: usize,
    pub filename: &'static str,
    pub data: &'static [u8],
    pub metadata: Id3Metadata,
    pub info: Mp3StreamInfo,
}

impl Mp3Track {
    /// Track `id` from the file `filename` holding `data`, with its tags
    /// and stream facts read.
    pub fn new(id: usize, filename: &'static str, data: &'static [u8]) -> (t: Mp3Track)
        requires
            data@.len() <= u64::MAX / 1152,
        ensures
            t.id == id,
            t.filename == filename,
            t.data@ == data@,
            t.metadata.text() == tag_text(data@),
            t.metadata.tag_size == v2_size(data@),
            t.metadata.tag_size < data@.len() ==> t.info == stream_info(data@.len() as usize, t.metadata.tag_size,
                first_frame(data@.subrange(t.metadata.tag_size as int, data@.len() as int))),
            t.metadata.tag_size >= data@.len() ==> t.info == stream_info(data@.len() as usize, t.metadata.tag_size, (0, None)),
    {
        let metadata = Id3Metadata::parse(data);
        let info = Mp3StreamInfo::scan(data, metadata.tag_size);
        Mp3Track { id, filename, data, metadata, info }
    }

    /// The title from the tags, else the file name.
    pub fn display_title(&self) -> (s: &str)
        ensures
            s@ == match self.metadata.title {
                Some(t) => t@,
                None => self.filename@,
            },
    {
        match &self.metadata.title {
            Some(t) => t.as_str(),
            None => self.filename,
        }
    }

    /// The artist from the tags, else `Unknown Artist`.
    pub fn display_artist(&self) -> (s: &str)
        ensures
            s@ == match self.metadata.artist {
                Some(a) => a@,
                None => "Unknown Artist"@,
            },
    {
        match &self.metadata.artist {
            Some(a) => a.as_str(),
            None => "Unknown Artist",
        }
    }
}

/// What the host must do for the next player step.
#[derive(Debug, Clone, Copy, PartialEq, Eq, Structural)]
pub enum PlayerStep {
    /// Nothing to decode; `changed` says whether the level bars moved.
    Idle { changed: bool },
    /// Decode the frame at `offset` of the current track (with a fresh
    /// decoder when `restart`), then call `finish_step`.
    Decode { offset: usize, restart: bool },
}

/// What decoding a frame produced, as the host measured it.
#[derive(Debug, Clone, Copy)]
pub struct FrameReport {
    /// Samples per channel.
    pub samples: usize,
    pub sample_rate: u32,
    /// Whether the samples went to the AC97 codec.
    pub via_codec: bool,
    /// Whether the frame is loud enough for a speaker tone.
    pub loud: bool,
    /// Sign changes between consecutive samples.
    pub zero_crossings: usize,
    /// The 16 level bars, when the frame had at least 16 samples.
    pub bands: Option<[u8; 16]>,
}

/// The speaker tone standing for a frame: the sample rate when the codec
/// plays it; otherwise, for a loud frame with more than two sign changes,
/// the frequency they suggest held to 65..3000 Hz; else none.
pub open spec fn frame_tone(r: FrameReport) -> u32 {
    if r.via_codec {
        r.sample_rate
    } else if r.loud && r.zero_crossings > 2 {
        let f = ((r.zero_crossings as int * r.sample_rate as int) / (2 * r.samples as int)) as u32;
        if f < 65 { 65 } else if f > 3000 { 3000 } else { f }
    } else {
        0
    }
}

/// A level bar one step lower, but not below 2.
pub open spec fn decayed(h: u8) -> u8 {
    if h > 2 { (h - 1) as u8 } else { h }
}

/// The MP3 player's state; the decoder itself and the sound hardware are
/// the host's.
pub struct Mp3Player {
    pub tracks: Vec<Mp3Track>,
    pub current_track: usize,
    pub byte_offset: usize,
    pub is_playing: bool,
    pub current_frame: usize,
    pub total_samples_decoded: usize,
    pub viz_heights: [u8; 16],
    pub dominant_freq: u32,
}

/// Lowers every level bar above 2 by one; says whether any moved.
pub fn decay_bars(bars: &mut [u8; 16]) -> (changed: bool)
    ensures
        forall|i: int| 0 <= i < 16 ==> #[trigger] final(bars)@[i] == decayed(old(bars)@[i]),
        changed == exists|i: int| 0 <= i < 16 && #[trigger] old(bars)@[i] > 2,
{
    let mut changed = false;
    let mut i: usize = 0;
    while i < 16
        invariant
            i <= 16,
            bars@.len() == 16,
            forall|j: int| 0 <= j < i ==> #[trigger] bars@[j] == decayed(old(bars)@[j]),
            forall|j: int| i <= j < 16 ==> #[trigger] bars@[j] == old(bars)@[j],
            changed == exists|j: int| 0 <= j < i && #[trigger] old(bars)@[j] > 2,
        decreases 16 - i,
    {
        let h = bars[i];
        if h > 2 {
            bars[i] = h - 1;
            changed = true;
        }
        assert(changed == exists|j: int| 0 <= j < i + 1 && #[trigger] old(bars)@[j] > 2) by {
            if old(bars)@[i as int] > 2 {
                assert(0 <= i < i + 1 && old(bars)@[i as int] > 2);
            }
        }
        i = i + 1;
    }
    changed
}

impl Mp3Player {
    /// The player's invariant: the current track index is within the list
    /// (or 0 for an empty list).
    pub open spec fn wf(&self) -> bool {
        self.tracks@.len() > 0 ==> self.current_track < self.tracks@.len()
    }

    /// Where the audio of track `i` starts.
    pub open spec fn start_of(&self, i: int) -> usize {
        self.tracks@[i].metadata.tag_size
    }

    /// A stopped player at the start of the first of `tracks`.
    pub fn new(tracks: Vec<Mp3Track>) -> (p: Mp3Player)
        ensures
            p.tracks@ == tracks@,
            p.current_track == 0,
            p.byte_offset == if tracks@.len() > 0 { tracks@[0].metadata.tag_size } else { 0 },
            !p.is_playing,
            p.current_frame == 0,
            p.total_samples_decoded == 0,
            p.viz_heights@ == Seq::new(16, |i: int| 4u8),
            p.dominant_freq == 0,
    {
        let mut p = Mp3Player {
            tracks,
            current_track: 0,
            byte_offset: 0,
            is_playing: false,
            current_frame: 0,
            total_samples_decoded: 0,
            viz_heights: [4u8; 16],
            dominant_freq: 0,
        };
        if p.tracks.len() > 0 {
            p.byte_offset = p.tracks[0].metadata.tag_size;
        }
        assert(p.viz_heights@ =~= Seq::new(16, |i: int| 4u8));
        p
    }

    /// Starts playing.
    pub fn play(&mut self)
        ensures
            final(self).is_playing,
            final(self).tracks == old(self).tracks,
            final(self).current_track == old(self).current_track,
            final(self).byte_offset == old(self).byte_offset,
            final(self).current_frame == old(self).current_frame,
            final(self).total_samples_decoded == old(self).total_samples_decoded,
            final(self).viz_heights == old(self).viz_heights,
            final(self).dominant_freq == old(self).dominant_freq,
    {
        self.is_playing = true;
    }

    /// Pauses.
    pub fn pause(&mut self)
        ensures
            !final(self).is_playing,
            final(self).tracks == old(self).tracks,
            final(self).current_track == old(self).current_track,
            final(self).byte_offset == old(self).byte_offset,
            final(self).current_frame == old(self).current_frame,
            final(self).total_samples_decoded == old(self).total_samples_decoded,
            final(self).viz_heights == old(self).viz_heights,
            final(self).dominant_freq == old(self).dominant_freq,
    {
        self.is_playing = false;
    }

    /// Stops and rewinds the current track (the host also resets its
    /// decoder and silences the hardware).
    pub fn stop(&mut self)
        ensures
            !final(self).is_playing,
            final(self).tracks == old(self).tracks,
            final(self).current_track == old(self).current_track,
            final(self).byte_offset == if old(self).current_track < old(self).tracks@.len() {
                old(self).start_of(old(self).current_track as int)
            } else {
                0
            },
            final(self).current_frame == 0,
            final(self).total_samples_decoded == 0,
            final(self).viz_heights@ == Seq::new(16, |i: int| 2u8),
            final(self).dominant_freq == 0,
    {
        self.is_playing = false;
        self.current_frame = 0;
        self.total_samples_decoded = 0;
        self.dominant_freq = 0;
        if self.current_track < self.tracks.len() {
            self.byte_offset = self.tracks[self.current_track].metadata.tag_size;
        } else {
            self.byte_offset = 0;
        }
        self.viz_heights = [2u8; 16];
        assert(self.viz_heights@ =~= Seq::new(16, |i: int| 2u8));
    }

    /// Stops and moves to the start of track `idx`, if there is one.
    pub fn set_track(&mut self, idx: usize)
        ensures
            final(self).tracks == old(self).tracks,
            idx < old(self).tracks@.len() ==> {
                &&& !final(self).is_playing
                &&& final(self).current_track == idx
                &&& final(self).byte_offset == old(self).start_of(idx as int)
                &&& final(self).current_frame == 0
                &&& final(self).total_samples_decoded == 0
                &&& final(self).viz_heights@ == Seq::new(16, |i: int| 2u8)
                &&& final(self).dominant_freq == 0
            },
            idx >= old(self).tracks@.len() ==> *final(self) == *old(self),
    {
        if idx < self.tracks.len() {
            self.stop();
            self.current_track = idx;
            self.byte_offset = self.tracks[idx].metadata.tag_size;
        }
    }

    /// Moves to the next track (after the last, the first), playing on if
    /// it was playing.
    pub fn next_track(&mut self)
        requires
            old(self).wf(),
            old(self).tracks@.len() > 0,
        ensures
            final(self).tracks == old(self).tracks,
            final(self).wf(),
            final(self).current_track == (old(self).current_track + 1) % (old(self).tracks@.len() as int),
            final(self).is_playing == old(self).is_playing,
            final(self).byte_offset == old(self).start_of(final(self).current_track as int),
            final(self).current_frame == 0,
            final(self).total_samples_decoded == 0,
            final(self).viz_heights@ == Seq::new(16, |i: int| 2u8),
            final(self).dominant_freq == 0,
    {
        let was_playing = self.is_playing;
        let n = self.tracks.len();
        assert(self.current_track < n);
        let next = (self.current_track + 1) % n;
        self.set_track(next);
        if was_playing {
            self.play();
        }
    }

    /// Moves to the previous track (before the first, the last), playing on
    /// if it was playing.
    pub fn prev_track(&mut self)
        requires
            old(self).wf(),
            old(self).tracks@.len() > 0,
        ensures
            final(self).wf(),
            final(self).tracks == old(self).tracks,
            final(self).current_track == if old(self).current_track == 0 {
                (old(self).tracks@.len() - 1) as usize
            } else {
                (old(self).current_track - 1) as usize
            },
            final(self).is_playing == old(self).is_playing,
            final(self).byte_offset == old(self).start_of(final(self).current_track as int),
            final(self).current_frame == 0,
            final(self).total_samples_decoded == 0,
            final(self).viz_heights@ == Seq::new(16, |i: int| 2u8),
            final(self).dominant_freq == 0,
    {
        let was_playing = self.is_playing;
        let prev = if self.current_track == 0 { self.tracks.len() - 1 } else { self.current_track - 1 };
        self.set_track(prev);
        if was_playing {
            self.play();
        }
    }

    /// Finishes a step with what decoding the frame gave: `consumed` bytes
    /// and, for a decoded frame, the host's report. Nothing consumed rewinds
    /// the track (the host then resets its decoder); otherwise the offset and
    /// frame count move on, and a decoded frame adds its samples, sets the
    /// speaker tone standing for it and, when given, the level bars. Always
    /// asks for a redraw.
    pub fn finish_step(&mut self, consumed: usize, frame: Option<FrameReport>) -> (changed: bool)
        requires
            old(self).wf(),
            old(self).current_track < old(self).tracks@.len(),
            old(self).byte_offset + consumed <= usize::MAX,
            old(self).current_frame < usize::MAX,
            match frame {
                Some(r) => {
                    &&& old(self).total_samples_decoded + r.samples <= usize::MAX
                    &&& (!r.via_codec && r.loud && r.zero_crossings > 2 ==> r.samples > 0)
                    &&& r.zero_crossings <= u32::MAX
                    &&& r.samples <= u32::MAX
                },
                None => true,
            },
        ensures
            final(self).wf(),
            changed,
            final(self).tracks == old(self).tracks,
            final(self).current_track == old(self).current_track,
            final(self).is_playing == old(self).is_playing,
            consumed == 0 ==> {
                &&& final(self).byte_offset == old(self).start_of(old(self).current_track as int)
                &&& final(self).current_frame == 0
                &&& final(self).total_samples_decoded == old(self).total_samples_decoded
                &&& final(self).dominant_freq == old(self).dominant_freq
                &&& final(self).viz_heights == old(self).viz_heights
            },
            consumed > 0 ==> {
                &&& final(self).byte_offset == old(self).byte_offset + consumed
                &&& final(self).current_frame == old(self).current_frame + 1
                &&& match frame {
                    Some(r) => {
                        &&& final(self).total_samples_decoded == old(self).total_samples_decoded + r.samples
                        &&& final(self).dominant_freq == frame_tone(r)
                        &&& final(self).viz_heights == match r.bands { Some(b) => b, None => old(self).viz_heights }
                    },
                    None => {
                        &&& final(self).total_samples_decoded == old(self).total_samples_decoded
                        &&& final(self).dominant_freq == old(self).dominant_freq
                        &&& final(self).viz_heights == old(self).viz_heights
                    },
                }
            },
    {
        if consumed == 0 {
            self.byte_offset = self.tracks[self.current_track].metadata.tag_size;
            self.current_frame = 0;
            return true;
        }
        self.byte_offset = self.byte_offset + consumed;
        self.current_frame = self.current_frame + 1;
        if let Some(r) = frame {
            self.total_samples_decoded = self.total_samples_decoded + r.samples;
            if r.via_codec {
                self.dominant_freq = r.sample_rate;
            } else if r.loud && r.zero_crossings > 2 {
                let zc = r.zero_crossings as u64;
                let sr = r.sample_rate as u64;
                assert(zc * sr <= u64::MAX) by (nonlinear_arith)
                    requires zc <= u32::MAX, sr <= u32::MAX;
                let num: u64 = zc * sr;
                let den: u64 = 2 * r.samples as u64;
                let f = #[verifier::truncate] ((num / den) as u32);
                self.dominant_freq = if f < 65 { 65 } else if f > 3000 { 3000 } else { f };
            } else {
                self.dominant_freq = 0;
            }
            if let Some(b) = r.bands {
                self.viz_heights = b;
            }
        }
        true
    }

    /// Starts a step: a stopped player lowers its level bars; a playing one
    /// at the end of its track rewinds it (asking for a fresh decoder) and
    /// asks for the frame at its offset to be decoded.
    pub fn begin_step(&mut self) -> (step: PlayerStep)
        requires
            old(self).wf(),
        ensures
            final(self).wf(),
            final(self).tracks == old(self).tracks,
            final(self).current_track == old(self).current_track,
            final(self).is_playing == old(self).is_playing,
            final(self).total_samples_decoded == old(self).total_samples_decoded,
            final(self).dominant_freq == old(self).dominant_freq,
            if !old(self).is_playing {
                &&& step == (PlayerStep::Idle { changed: exists|i: int| 0 <= i < 16 && #[trigger] old(self).viz_heights@[i] > 2 })
                &&& forall|i: int| 0 <= i < 16 ==> #[trigger] final(self).viz_heights@[i] == decayed(old(self).viz_heights@[i])
                &&& final(self).byte_offset == old(self).byte_offset
                &&& final(self).current_frame == old(self).current_frame
            } else if old(self).current_track >= old(self).tracks@.len() {
                &&& step == (PlayerStep::Idle { changed: false })
                &&& *final(self) == *old(self)
            } else {
                let track = old(self).tracks@[old(self).current_track as int];
                let rewind = old(self).byte_offset >= track.data@.len();
                &&& final(self).viz_heights == old(self).viz_heights
                &&& final(self).byte_offset == if rewind { track.metadata.tag_size } else { old(self).byte_offset }
                &&& final(self).current_frame == if rewind { 0 } else { old(self).current_frame }
                &&& step == (PlayerStep::Decode { offset: final(self).byte_offset, restart: rewind })
            },
    {
        if !self.is_playing {
            let changed = decay_bars(&mut self.viz_heights);
            return PlayerStep::Idle { changed };
        }
        if self.current_track >= self.tracks.len() {
            return PlayerStep::Idle { changed: false };
        }
        let len = self.tracks[self.current_track].data.len();
        let mut restart = false;
        if self.byte_offset >= len {
            self.byte_offset = self.tracks[self.current_track].metadata.tag_size;
            self.current_frame = 0;
            restart = true;
        }
        PlayerStep::Decode { offset: self.byte_offset, restart }
    }
}

} // verus!
