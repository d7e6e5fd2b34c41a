//! The text editor: a list of lines and a cursor, edited by typing,
//! Enter, Backspace and the arrow keys.
use vstd::prelude::*;
use crate::chars::{chars_of, format_spaced, seqs_of, space_pad};
use crate::text::decimal_digits;
use crate::scene::{add_fill, add_text, clip_to, paint, painted, scene_ok, sfill, shapes_view, stext, Shape, ShapeV};
use crate::color::{pack_argb, Color};
use crate::framebuffer::Framebuffer;
use crate::render::{clipped, drawn_over, inner};
use crate::input::{DecodedKey, KeyCode};

verus! {

/// Lines the editor holds at most (Enter does nothing beyond).
pub const MAX_NOTE_LINES: usize = 500;

/// Characters a line holds at most (typing does nothing beyond).
pub const MAX_NOTE_LINE: usize = 256;

/// The editor's state.
pub struct NotepadApp {
    pub lines: Vec<Vec<char>>,
    pub cursor_row: usize,
    pub cursor_col: usize,
    pub cursor_visible: bool,
    pub blink_counter: usize,
}

/// Text and cursor: the lines, the cursor's line and column.
pub type Page = (Seq<Seq<char>>, int, int);

/// The page with the cursor moved inside the text (a missing line added).
pub open spec fn clamp_page(lines: Seq<Seq<char>>, row: int, col: int) -> Page {
    let ls = if lines.len() == 0 { seq![Seq::<char>::empty()] } else { lines };
    let r = if row < ls.len() - 1 { row } else { ls.len() - 1 };
    let c = if col < ls[r].len() { col } else { ls[r].len() as int };
    (ls, r, c)
}

/// Whether the cursor of `p` is inside its text.
pub open spec fn page_ok(p: Page) -> bool {
    &&& p.0.len() > 0
    &&& 0 <= p.1 < p.0.len()
    &&& 0 <= p.2 <= p.0[p.1].len()
}

/// The page after key `key` on `p` (whose cursor is inside the text).
/// Enter splits the line at the cursor (up to 500 lines); Backspace deletes
/// the character before the cursor, or at the start of a line joins it to
/// the line above; a printable ASCII character is inserted at the cursor
/// (up to 256 per line); the arrows move the cursor, keeping it inside the
/// text.
pub open spec fn edit(p: Page, key: DecodedKey) -> Page {
    let (ls, r, c) = p;
    let line = ls[r];
    match key {
        DecodedKey::Unicode(ch) => {
            if ch == '\n' || ch == '\r' {
                if ls.len() < 500 {
                    (ls.update(r, line.take(c)).insert(r + 1, line.skip(c)), r + 1, 0)
                } else {
                    p
                }
            } else if ch == '\u{8}' {
                if c > 0 {
                    (ls.update(r, line.remove(c - 1)), r, c - 1)
                } else if r > 0 {
                    (ls.remove(r).update(r - 1, ls[r - 1] + line), r - 1, ls[r - 1].len() as int)
                } else {
                    p
                }
            } else if ' ' <= ch && ch <= '~' && line.len() < 256 {
                (ls.update(r, line.insert(c, ch)), r, c + 1)
            } else {
                p
            }
        },
        DecodedKey::RawKey(code) => {
            if code == KeyCode::ArrowLeft {
                (ls, r, if c > 0 { c - 1 } else { c })
            } else if code == KeyCode::ArrowRight {
                (ls, r, if c < line.len() { c + 1 } else { c })
            } else if code == KeyCode::ArrowUp {
                if r > 0 { (ls, r - 1, if c < ls[r - 1].len() { c } else { ls[r - 1].len() as int }) } else { p }
            } else if code == KeyCode::ArrowDown {
                if r + 1 < ls.len() { (ls, r + 1, if c < ls[r + 1].len() { c } else { ls[r + 1].len() as int }) } else { p }
            } else {
                p
            }
        },
    }
}

/// Typing a printable character into a line with room, then Backspace,
/// gives the page back.
pub proof fn lemma_type_then_erase(p: Page, ch: char)
    requires
        page_ok(p),
        ' ' <= ch <= '~',
        p.0[p.1].len() < 256,
    ensures
        edit(edit(p, DecodedKey::Unicode(ch)), DecodedKey::Unicode('\u{8}')) == p,
{
    let (ls, r, c) = p;
    let q = edit(p, DecodedKey::Unicode(ch));
    assert(q.0[r] =~= ls[r].insert(c, ch));
    assert(q.0[r].remove(c) =~= ls[r]);
    assert(q.0.update(r, q.0[r].remove(c)) =~= ls);
}

/// Enter, then Backspace at the start of the new line, gives the page back
/// (when there is room for another line).
pub proof fn lemma_split_then_join(p: Page)
    requires
        page_ok(p),
        p.0.len() < 500,
    ensures
        edit(edit(p, DecodedKey::Unicode('\n')), DecodedKey::Unicode('\u{8}')) == p,
{
    let (ls, r, c) = p;
    let line = ls[r];
    let q = edit(p, DecodedKey::Unicode('\n'));
    assert(q.0 == ls.update(r, line.take(c)).insert(r + 1, line.skip(c)));
    assert(q.0[r + 1] == line.skip(c));
    assert(q.0[r] == line.take(c));
    assert(line.take(c) + line.skip(c) =~= line);
    assert(q.0.remove(r + 1) =~= ls.update(r, line.take(c)));
    assert(q.0.remove(r + 1).update(r, q.0[r] + q.0[r + 1]) =~= ls);
}

/// Every edit keeps the cursor inside the text.
pub proof fn lemma_edit_keeps_cursor(p: Page, key: DecodedKey)
    requires
        page_ok(p),
    ensures
        page_ok(edit(p, key)),
{
    let (ls, r, c) = p;
    match key {
        DecodedKey::Unicode(ch) => {
            if ch == '\u{8}' && c == 0 && r > 0 {
                let n = edit(p, key);
                assert(n.0[r - 1] == ls[r - 1] + ls[r]);
            }
        },
        DecodedKey::RawKey(_) => {},
    }
}

/// ArrowDown moves the cursor to the next line, at the same column or at
/// that line's end when it is shorter, and leaves the text as it was; on
/// the last line it changes nothing.
pub proof fn lemma_arrow_down(p: Page)
    requires
        page_ok(p),
    ensures
        ({
            let q = edit(p, DecodedKey::RawKey(KeyCode::ArrowDown));
            let (ls, r, c) = p;
            if r + 1 < ls.len() {
                &&& q.0 == ls
                &&& q.1 == r + 1
                &&& q.2 == if c <= ls[r + 1].len() { c } else { ls[r + 1].len() as int }
            } else {
                q == p
            }
        }),
{
}

/// ArrowUp, then ArrowDown, from any line but the first brings the cursor
/// back to its line, with the text unchanged and the column no further
/// right than it was.
pub proof fn lemma_up_then_down(p: Page)
    requires
        page_ok(p),
        p.1 > 0,
    ensures
        ({
            let q = edit(edit(p, DecodedKey::RawKey(KeyCode::ArrowUp)), DecodedKey::RawKey(KeyCode::ArrowDown));
            &&& q.0 == p.0
            &&& q.1 == p.1
            &&& 0 <= q.2 <= p.2
        }),
{
}

/// ArrowDown, then ArrowUp, from any line but the last brings the cursor
/// back to its line, with the text unchanged and the column no further
/// right than it was.
pub proof fn lemma_down_then_up(p: Page)
    requires
        page_ok(p),
        p.1 + 1 < p.0.len(),
    ensures
        ({
            let q = edit(edit(p, DecodedKey::RawKey(KeyCode::ArrowDown)), DecodedKey::RawKey(KeyCode::ArrowUp));
            &&& q.0 == p.0
            &&& q.1 == p.1
            &&& 0 <= q.2 <= p.2
        }),
{
}

/// ArrowLeft and ArrowRight move the cursor one column within its line and
/// undo each other: Left then Right anywhere but at the line's start, and
/// Right then Left anywhere but at its end, give the page back.
pub proof fn lemma_left_right(p: Page)
    requires
        page_ok(p),
    ensures
        p.2 > 0 ==> edit(p, DecodedKey::RawKey(KeyCode::ArrowLeft)) == (p.0, p.1, p.2 - 1),
        p.2 < p.0[p.1].len() ==> edit(p, DecodedKey::RawKey(KeyCode::ArrowRight)) == (p.0, p.1, p.2 + 1),
        p.2 > 0 ==> edit(edit(p, DecodedKey::RawKey(KeyCode::ArrowLeft)), DecodedKey::RawKey(KeyCode::ArrowRight)) == p,
        p.2 < p.0[p.1].len() ==> edit(edit(p, DecodedKey::RawKey(KeyCode::ArrowRight)), DecodedKey::RawKey(KeyCode::ArrowLeft)) == p,
{
}

impl NotepadApp {
    /// The text and cursor as a page.
    pub open spec fn page(&self) -> Page {
        (seqs_of(self.lines@), self.cursor_row as int, self.cursor_col as int)
    }

    /// The blink counter stays below the blink period.
    pub open spec fn wf(&self) -> bool {
        self.blink_counter < 40
    }

    /// The editor with its welcome text, the cursor at the end.
    pub fn new() -> (app: NotepadApp)
        ensures
            app.wf(),
            seqs_of(app.lines@) == seq![
                "Welcome to Mouros OS!"@,
                "--------------------"@,
                "Graphical text editor"@,
                "built on bare-metal Rust."@,
                Seq::<char>::empty(),
                "Features:"@,
                " * Interactive typing"@,
                " * Arrow navigation"@,
                " * Multiline buffer"@,
                Seq::<char>::empty(),
                "Try editing this text!"@,
            ],
            app.cursor_row == 10,
            app.cursor_col == 22,
            app.cursor_visible,
            app.blink_counter == 0,
    {
        let mut lines: Vec<Vec<char>> = Vec::new();
        lines.push(chars_of("Welcome to Mouros OS!"));
        lines.push(chars_of("--------------------"));
        lines.push(chars_of("Graphical text editor"));
        lines.push(chars_of("built on bare-metal Rust."));
        lines.push(Vec::new());
        lines.push(chars_of("Features:"));
        lines.push(chars_of(" * Interactive typing"));
        lines.push(chars_of(" * Arrow navigation"));
        lines.push(chars_of(" * Multiline buffer"));
        lines.push(Vec::new());
        lines.push(chars_of("Try editing this text!"));
        let app = NotepadApp { lines, cursor_row: 10, cursor_col: 22, cursor_visible: true, blink_counter: 0 };
        assert(seqs_of(app.lines@) =~= seq![
            "Welcome to Mouros OS!"@,
            "--------------------"@,
            "Graphical text editor"@,
            "built on bare-metal Rust."@,
            Seq::<char>::empty(),
            "Features:"@,
            " * Interactive typing"@,
            " * Arrow navigation"@,
            " * Multiline buffer"@,
            Seq::<char>::empty(),
            "Try editing this text!"@,
        ]);
        app
    }

    /// The window title.
    pub fn title(&self) -> (t: &'static str)
        ensures
            t@ == "Notepad"@,
    {
        "Notepad"
    }

    /// Moves the cursor inside the text, adding a line to an empty text.
    fn clamp_cursor(&mut self)
        ensures
            final(self).page() == clamp_page(old(self).page().0, old(self).page().1, old(self).page().2),
            page_ok(final(self).page()),
            final(self).cursor_visible == old(self).cursor_visible,
            final(self).blink_counter == old(self).blink_counter,
    {
        if self.lines.len() == 0 {
            self.lines.push(Vec::new());
            assert(seqs_of(self.lines@) =~= seq![Seq::<char>::empty()]);
        }
        let n = self.lines.len();
        if self.cursor_row > n - 1 {
            self.cursor_row = n - 1;
        }
        let llen = self.lines[self.cursor_row].len();
        if self.cursor_col > llen {
            self.cursor_col = llen;
        }
    }

    /// Enter: splits the line at the cursor.
    fn split_line(&mut self)
        requires
            page_ok(old(self).page()),
        ensures
            final(self).page() == edit(old(self).page(), DecodedKey::Unicode('\n')),
            final(self).cursor_visible == old(self).cursor_visible,
            final(self).blink_counter == old(self).blink_counter,
    {
        let ghost p = self.page();
        let r = self.cursor_row;
        let c = self.cursor_col;
        if self.lines.len() < 500 {
            let mut line = self.lines.remove(r);
            let rest = line.split_off(c);
            self.lines.insert(r, line);
            self.lines.insert(r + 1, rest);
            self.cursor_row = r + 1;
            self.cursor_col = 0;
            assert(seqs_of(self.lines@) =~= p.0.update(r as int, p.0[r as int].take(c as int)).insert(r + 1, p.0[r as int].skip(c as int)));
        }
    }

    /// Backspace: deletes before the cursor or joins the line to the one above.
    fn erase(&mut self)
        requires
            page_ok(old(self).page()),
        ensures
            final(self).page() == edit(old(self).page(), DecodedKey::Unicode('\u{8}')),
            final(self).cursor_visible == old(self).cursor_visible,
            final(self).blink_counter == old(self).blink_counter,
    {
        let ghost p = self.page();
        let r = self.cursor_row;
        let c = self.cursor_col;
        if c > 0 {
            let mut line = self.lines.remove(r);
            line.remove(c - 1);
            self.lines.insert(r, line);
            self.cursor_col = c - 1;
            assert(seqs_of(self.lines@) =~= p.0.update(r as int, p.0[r as int].remove(c - 1)));
        } else if r > 0 {
            let mut current = self.lines.remove(r);
            let mut above = self.lines.remove(r - 1);
            let col = above.len();
            above.append(&mut current);
            self.lines.insert(r - 1, above);
            self.cursor_row = r - 1;
            self.cursor_col = col;
            assert(seqs_of(self.lines@) =~= p.0.remove(r as int).update(r - 1, p.0[r - 1] + p.0[r as int]));
        }
    }

    /// Inserts the printable character `ch` at the cursor.
    fn type_char(&mut self, ch: char)
        requires
            page_ok(old(self).page()),
            ' ' <= ch <= '~',
        ensures
            final(self).page() == edit(old(self).page(), DecodedKey::Unicode(ch)),
            final(self).cursor_visible == old(self).cursor_visible,
            final(self).blink_counter == old(self).blink_counter,
    {
        let ghost p = self.page();
        let r = self.cursor_row;
        let c = self.cursor_col;
        if self.lines[r].len() < 256 {
            let mut line = self.lines.remove(r);
            line.insert(c, ch);
            self.lines.insert(r, line);
            self.cursor_col = c + 1;
            assert(seqs_of(self.lines@) =~= p.0.update(r as int, p.0[r as int].insert(c as int, ch)));
        }
    }

    /// Moves the cursor with arrow key `code`.
    fn move_cursor(&mut self, code: KeyCode)
        requires
            page_ok(old(self).page()),
        ensures
            final(self).page() == edit(old(self).page(), DecodedKey::RawKey(code)),
            final(self).cursor_visible == old(self).cursor_visible,
            final(self).blink_counter == old(self).blink_counter,
    {
        let r = self.cursor_row;
        let c = self.cursor_col;
        let n = self.lines.len();
        assert(r < n);
        if code == KeyCode::ArrowLeft {
            if c > 0 {
                self.cursor_col = c - 1;
            }
        } else if code == KeyCode::ArrowRight {
            if c < self.lines[r].len() {
                self.cursor_col = c + 1;
            }
        } else if code == KeyCode::ArrowUp {
            if r > 0 {
                self.cursor_row = r - 1;
                let l = self.lines[r - 1].len();
                if c > l {
                    self.cursor_col = l;
                }
            }
        } else if code == KeyCode::ArrowDown {
            if r + 1 < n {
                self.cursor_row = r + 1;
                let l = self.lines[r + 1].len();
                if c > l {
                    self.cursor_col = l;
                }
            }
        }
    }

    /// Reacts to a key: the cursor is first moved inside the text, then the
    /// key edits the page (see `edit`).
    pub fn on_key(&mut self, key: DecodedKey)
        ensures
            final(self).page() == edit(clamp_page(old(self).page().0, old(self).page().1, old(self).page().2), key),
            final(self).cursor_visible == old(self).cursor_visible,
            final(self).blink_counter == old(self).blink_counter,
    {
        self.clamp_cursor();
        match key {
            DecodedKey::Unicode(ch) => {
                if ch == '\n' || ch == '\r' {
                    let ghost p = self.page();
                    self.split_line();
                    assert(edit(p, DecodedKey::Unicode('\n')) == edit(p, key));
                } else if ch == '\u{8}' {
                    self.erase();
                } else if ch >= ' ' && ch <= '~' {
                    self.type_char(ch);
                }
            },
            DecodedKey::RawKey(code) => {
                self.move_cursor(code);
            },
        }
    }

    /// Clicks change nothing.
    pub fn on_mouse_click(&mut self, local_x: isize, local_y: isize, left: bool)
        ensures
            *final(self) == *old(self),
    {
    }

    /// Counts a timer tick; every 40 ticks the cursor blinks, and the
    /// result says whether to redraw.
    pub fn on_tick(&mut self) -> (redraw: bool)
        requires
            old(self).wf(),
        ensures
            final(self).wf(),
            final(self).lines == old(self).lines,
            final(self).cursor_row == old(self).cursor_row,
            final(self).cursor_col == old(self).cursor_col,
            redraw == (old(self).blink_counter + 1 >= 40),
            final(self).blink_counter == if redraw { 0 } else { old(self).blink_counter + 1 },
            final(self).cursor_visible == if redraw { !old(self).cursor_visible } else { old(self).cursor_visible },
    {
        self.blink_counter = self.blink_counter + 1;
        if self.blink_counter >= 40 {
            self.blink_counter = 0;
            self.cursor_visible = !self.cursor_visible;
            true
        } else {
            false
        }
    }
}


/// How many whole 12-pixel lines fit from 8 pixels down in a client area
/// `ch` high.
pub open spec fn lines_fit(ch: int) -> int {
    if ch >= 20 { (ch - 20) / 12 + 1 } else { 0 }
}

/// The characters of a line that fit in the editor's width.
pub open spec fn note_max_chars(cw: int) -> int {
    if cw >= 52 { (cw - 52) / 8 } else { 0 }
}

impl NotepadApp {
    /// Line `idx` as drawn at row `y`: its number right-aligned in two
    /// cells, its text cut to the width, and the bar cursor when the cursor
    /// is shown on it within the width.
    pub open spec fn row_shapes(&self, cx: int, cy: int, cw: int, idx: int) -> Seq<ShapeV> {
        let y = cy + 8 + 12 * idx;
        let max_chars = note_max_chars(cw);
        seq![
            stext(cx + 8, y, space_pad(decimal_digits((idx + 1) as nat), 2), pack_argb(255, 100, 116, 139)),
            stext(cx + 44, y, clip_to(self.lines@[idx]@, max_chars), pack_argb(255, 241, 245, 249))
        ] + if idx == self.cursor_row && self.cursor_visible && self.cursor_col <= max_chars {
            seq![sfill(cx + 44 + self.cursor_col * 8, y, 2, 8, pack_argb(255, 96, 165, 250))]
        } else {
            Seq::empty()
        }
    }

    /// Lines `0..k` as drawn.
    pub open spec fn rows_upto(&self, cx: int, cy: int, cw: int, k: int) -> Seq<ShapeV>
        decreases k,
    {
        if k <= 0 { Seq::empty() } else { self.rows_upto(cx, cy, cw, k - 1) + self.row_shapes(cx, cy, cw, k - 1) }
    }

    /// What the editor shows in the client area at `(cx, cy)`, `cw` by `ch`:
    /// the page, the line-number gutter and its edge, then the lines that
    /// fit whole.
    pub open spec fn scene_spec(&self, cx: int, cy: int, cw: int, ch: int) -> Seq<ShapeV> {
        let n = self.lines@.len() as int;
        let shown = if n < lines_fit(ch) { n } else { lines_fit(ch) };
        seq![
            sfill(cx, cy, cw, ch, pack_argb(255, 24, 28, 38)),
            sfill(cx, cy, 36, ch, pack_argb(255, 18, 22, 30)),
            sfill(cx + 35, cy, 1, ch, pack_argb(255, 51, 65, 85))
        ] + self.rows_upto(cx, cy, cw, shown)
    }

    /// Builds `scene_spec`.
    pub fn scene(&self, cx: isize, cy: isize, cw: usize, ch: usize) -> (s: Vec<Shape>)
        requires
            inner(cx as int),
            inner(cy as int),
            cw <= 0x1_0000,
            ch <= 0x1_0000,
        ensures
            shapes_view(s@) == self.scene_spec(cx as int, cy as int, cw as int, ch as int),
            scene_ok(shapes_view(s@)),
    {
        let mut s: Vec<Shape> = Vec::new();
        assert(shapes_view(s@) =~= Seq::<ShapeV>::empty());
        add_fill(&mut s, cx, cy, cw, ch, Color::from_rgb(24, 28, 38).raw);
        add_fill(&mut s, cx, cy, 36, ch, Color::from_rgb(18, 22, 30).raw);
        add_fill(&mut s, cx + 35, cy, 1, ch, Color::from_rgb(51, 65, 85).raw);
        let ghost head = shapes_view(s@);
        let max_chars: usize = if cw >= 52 { (cw - 52) / 8 } else { 0 };
        let bottom = cy + ch as isize;
        let text_x = cx + 44;
        let mut y = cy + 8;
        let n = self.lines.len();
        let mut idx: usize = 0;
        while idx < n && y + 12 <= bottom
            invariant
                inner(cx as int),
                inner(cy as int),
                bottom == cy + ch,
                ch <= 0x1_0000,
                cw <= 0x1_0000,
                text_x == cx + 44,
                max_chars == note_max_chars(cw as int),
                max_chars <= 0x2000,
                y == cy + 8 + 12 * idx,
                idx <= lines_fit(ch as int),
                n == self.lines@.len(),
                idx <= n,
                shapes_view(s@) == head + self.rows_upto(cx as int, cy as int, cw as int, idx as int),
                scene_ok(shapes_view(s@)),
            decreases n - idx,
        {
            let ghost before = shapes_view(s@);
            add_text(&mut s, cx + 8, y, format_spaced((idx + 1) as u64, 2), Color::from_rgb(100, 116, 139).raw);
            add_text(&mut s, text_x, y, clipped(self.lines[idx].as_slice(), max_chars), Color::from_rgb(241, 245, 249).raw);
            if idx == self.cursor_row && self.cursor_visible && self.cursor_col <= max_chars {
                add_fill(&mut s, text_x + (self.cursor_col * 8) as isize, y, 2, 8, Color::from_rgb(96, 165, 250).raw);
            }
            assert(shapes_view(s@) =~= before + self.row_shapes(cx as int, cy as int, cw as int, idx as int));
            y = y + 12;
            idx = idx + 1;
            assert(shapes_view(s@) =~= head + self.rows_upto(cx as int, cy as int, cw as int, idx as int));
        }
        s
    }

    /// Draws the editor into the client area at `(cx, cy)`, `cw` by `ch`:
    /// exactly the pixels of `scene_spec`.
    pub fn render(&self, fb: &mut Framebuffer, cx: isize, cy: isize, cw: usize, ch: usize)
        requires
            old(fb).wf(),
            inner(cx as int),
            inner(cy as int),
            cw <= 0x1_0000,
            ch <= 0x1_0000,
        ensures
            drawn_over(*old(fb), *final(fb)),
            final(fb).backbuffer@ == painted(*old(fb), old(fb).backbuffer@, self.scene_spec(cx as int, cy as int, cw as int, ch as int)),
    {
        let s = self.scene(cx, cy, cw, ch);
        paint(fb, s.as_slice());
    }
}
} // verus!
