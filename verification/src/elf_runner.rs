//! The program runner window: a list of the four bundled programs, and a
//! console with the output of the last run. Running a program is the host's
//! part: `run_selected` names the program, `finish_run` takes the outcome.
use vstd::prelude::*;
use crate::chars::{append_chars, append_str, chars_of, contains_chars, contains_run, seqs_of, split_lines, starts_with_chars, text_lines};
use crate::color::{pack_argb, Color};
use crate::framebuffer::Framebuffer;
use crate::render::{clipped, drawn_over, inner};
use crate::scene::{add_fill, add_label, add_outline, add_text, paint, painted, scene_ok, sfill, shapes_view, soutline, stext, Shape, ShapeV};
use crate::terminal::begins;
use crate::elf::ProcessResult;
use crate::input::{DecodedKey, KeyCode};
use crate::text::{decimal_digits, format_i64, format_i64_spec, format_u64};

verus! {

/// Console lines shown at once.
pub const VISIBLE_LINES: usize = 16;

/// A bundled program: file name, description, contents.
pub struct ElfEntry {
    pub name: &'static str,
    pub desc: &'static str,
    pub data: &'static [u8],
}

/// The runner's state.
pub struct ElfRunnerApp {
    pub entries: Vec<ElfEntry>,
    pub selected_idx: usize,
    pub output_lines: Vec<Vec<char>>,
    pub status_text: Vec<char>,
    pub scroll_offset: usize,
}

/// The console after a run of a program ending with `exit_code` and
/// printing `output` in `ms` milliseconds, or failing with `error`, below
/// the start line `start`.
pub open spec fn run_lines(start: Seq<char>, exit_code: Option<i32>, output: Seq<char>, ms: int, error: Seq<char>) -> Seq<Seq<char>> {
    match exit_code {
        Some(code) => seq![start] + text_lines(output)
            + seq![">>> Process exited with code "@ + format_i64_spec(code as i64) + " in ~"@ + decimal_digits(ms as nat) + " ms"@],
        None => seq![start, ">>> EXECUTION ERROR: "@ + error],
    }
}

/// The status line after such a run.
pub open spec fn run_status(exit_code: Option<i32>, ms: int, error: Seq<char>) -> Seq<char> {
    match exit_code {
        Some(code) => "Finished: code "@ + format_i64_spec(code as i64) + " ("@ + decimal_digits(ms as nat) + " ms)"@,
        None => "Error: "@ + error,
    }
}

/// The list entry under client-area height `y` (rows 46 apart from
/// height 28, 41 high).
pub open spec fn entry_row(y: int) -> Option<int> {
    if 28 <= y <= 68 { Some(0) }
    else if 74 <= y <= 114 { Some(1) }
    else if 120 <= y <= 160 { Some(2) }
    else if 166 <= y <= 206 { Some(3) }
    else { None }
}

/// The scroll position showing the last 16 of `n` lines (0 for fewer).
pub open spec fn scroll_to_end(n: int) -> int {
    if n > 16 { n - 16 } else { 0 }
}

/// The start line of a run of `name` of `size` bytes.
pub open spec fn start_line(name: Seq<char>, size: int) -> Seq<char> {
    ">>> Executing: "@ + name + " ("@ + decimal_digits(size as nat) + " bytes)..."@
}

impl ElfRunnerApp {
    /// Four programs and the selection inside the list.
    pub open spec fn wf(&self) -> bool {
        self.entries@.len() == 4 && self.selected_idx < 4
    }

    /// The console lines as character sequences.
    pub open spec fn lines_view(&self) -> Seq<Seq<char>> {
        seqs_of(self.output_lines@)
    }

    /// The runner over the four programs, the first selected, with its
    /// welcome text.
    pub fn new(hello: &'static [u8], fibonacci: &'static [u8], mandelbrot: &'static [u8], sysbench: &'static [u8]) -> (app: ElfRunnerApp)
        ensures
            app.wf(),
            app.entries@[0].name@ == "hello.elf"@ && app.entries@[0].data@ == hello@,
            app.entries@[1].name@ == "fibonacci.elf"@ && app.entries@[1].data@ == fibonacci@,
            app.entries@[2].name@ == "mandelbrot.elf"@ && app.entries@[2].data@ == mandelbrot@,
            app.entries@[3].name@ == "sysbench.elf"@ && app.entries@[3].data@ == sysbench@,
            app.selected_idx == 0,
            app.lines_view() == seq![
                "=== Mouros ELF 64-bit Userspace Subsystem ==="@,
                "Select an executable from the left panel and click 'Run ELF'."@,
                "Binaries execute with native x86_64 machine code via C MourosApi."@,
            ],
            app.status_text@ == "Ready - Select a binary and click 'Run ELF'"@,
            app.scroll_offset == 0,
    {
        let entries = vec![
            ElfEntry { name: "hello.elf", desc: "Mouros Greeting & Host API test", data: hello },
            ElfEntry { name: "fibonacci.elf", desc: "Fibonacci Sequence Generator", data: fibonacci },
            ElfEntry { name: "mandelbrot.elf", desc: "ASCII Mandelbrot Fractal Generator", data: mandelbrot },
            ElfEntry { name: "sysbench.elf", desc: "CPU & Memory Performance Benchmark", data: sysbench },
        ];
        let mut lines: Vec<Vec<char>> = Vec::new();
        lines.push(chars_of("=== Mouros ELF 64-bit Userspace Subsystem ==="));
        lines.push(chars_of("Select an executable from the left panel and click 'Run ELF'."));
        lines.push(chars_of("Binaries execute with native x86_64 machine code via C MourosApi."));
        let app = ElfRunnerApp {
            entries,
            selected_idx: 0,
            output_lines: lines,
            status_text: chars_of("Ready - Select a binary and click 'Run ELF'"),
            scroll_offset: 0,
        };
        assert(app.lines_view() =~= seq![
            "=== Mouros ELF 64-bit Userspace Subsystem ==="@,
            "Select an executable from the left panel and click 'Run ELF'."@,
            "Binaries execute with native x86_64 machine code via C MourosApi."@,
        ]);
        app
    }

    /// The window title.
    pub fn title(&self) -> (t: &'static str)
        ensures
            t@ == "ELF Executable Runner"@,
    {
        "ELF Executable Runner"
    }

    /// Starts a run of the selected program: the console is cleared to the
    /// start line and scrolled to the top; the host runs the returned
    /// program and hands the outcome to `finish_run`.
    pub fn run_selected(&mut self) -> (program: &'static [u8])
        requires
            old(self).wf(),
        ensures
            final(self).wf(),
            program@ == old(self).entries@[old(self).selected_idx as int].data@,
            final(self).lines_view() == seq![start_line(
                old(self).entries@[old(self).selected_idx as int].name@,
                old(self).entries@[old(self).selected_idx as int].data@.len() as int,
            )],
            final(self).scroll_offset == 0,
            final(self).entries == old(self).entries,
            final(self).selected_idx == old(self).selected_idx,
            final(self).status_text == old(self).status_text,
    {
        let name = self.entries[self.selected_idx].name;
        let data = self.entries[self.selected_idx].data;
        let mut l = chars_of(">>> Executing: ");
        append_str(&mut l, name);
        append_str(&mut l, " (");
        let d = format_u64(data.len() as u64);
        append_chars(&mut l, d.as_slice());
        append_str(&mut l, " bytes)...");
        self.output_lines.clear();
        self.output_lines.push(l);
        self.scroll_offset = 0;
        assert(self.lines_view() =~= seq![start_line(name@, data@.len() as int)]);
        data
    }

    /// Finishes a run that took `elapsed_ticks` timer ticks (10 ms each)
    /// with `result`: the program's output lines and exit line, or the
    /// error; the status line; and the console scrolled to its end.
    pub fn finish_run(&mut self, result: Result<ProcessResult, &'static str>, elapsed_ticks: u64)
        requires
            old(self).wf(),
            elapsed_ticks <= u64::MAX / 10,
            old(self).lines_view().len() == 1,
        ensures
            final(self).wf(),
            final(self).entries == old(self).entries,
            final(self).selected_idx == old(self).selected_idx,
            match result {
                Ok(r) => {
                    &&& final(self).lines_view() == run_lines(old(self).lines_view()[0], Some(r.exit_code), r.output@, elapsed_ticks * 10, Seq::empty())
                    &&& final(self).status_text@ == run_status(Some(r.exit_code), elapsed_ticks * 10, Seq::empty())
                },
                Err(e) => {
                    &&& final(self).lines_view() == run_lines(old(self).lines_view()[0], None, Seq::empty(), 0, e@)
                    &&& final(self).status_text@ == run_status(None, 0, e@)
                },
            },
            final(self).scroll_offset == scroll_to_end(final(self).lines_view().len() as int),
    {
        let ghost start = self.lines_view()[0];
        let ms = elapsed_ticks * 10;
        match result {
            Ok(r) => {
                let text = chars_of(r.output.as_str());
                let mut ls = split_lines(text.as_slice());
                proof {
                    assert(seqs_of(self.output_lines@ + ls@) =~= seqs_of(self.output_lines@) + seqs_of(ls@));
                }
                self.output_lines.append(&mut ls);
                let code = format_i64(r.exit_code as i64);
                let msd = format_u64(ms);
                let mut e = chars_of(">>> Process exited with code ");
                append_chars(&mut e, code.as_slice());
                append_str(&mut e, " in ~");
                append_chars(&mut e, msd.as_slice());
                append_str(&mut e, " ms");
                proof {
                    assert(seqs_of(self.output_lines@.push(e)) =~= seqs_of(self.output_lines@).push(e@));
                }
                self.output_lines.push(e);
                let mut st = chars_of("Finished: code ");
                append_chars(&mut st, code.as_slice());
                append_str(&mut st, " (");
                append_chars(&mut st, msd.as_slice());
                append_str(&mut st, " ms)");
                self.status_text = st;
                assert(self.lines_view() =~= run_lines(start, Some(r.exit_code), r.output@, ms as int, Seq::empty()));
            },
            Err(msg) => {
                let mut e = chars_of(">>> EXECUTION ERROR: ");
                append_str(&mut e, msg);
                proof {
                    assert(seqs_of(self.output_lines@.push(e)) =~= seqs_of(self.output_lines@).push(e@));
                }
                self.output_lines.push(e);
                let mut st = chars_of("Error: ");
                append_str(&mut st, msg);
                self.status_text = st;
                assert(self.lines_view() =~= run_lines(start, None, Seq::empty(), 0, msg@));
            },
        }
        if self.output_lines.len() > VISIBLE_LINES {
            self.scroll_offset = self.output_lines.len() - VISIBLE_LINES;
        } else {
            self.scroll_offset = 0;
        }
    }

    /// Reacts to a key: W or Up and S or Down move the selection, K and J
    /// scroll the console, Enter starts a run (returning the program the
    /// host must run).
    pub fn on_key(&mut self, key: DecodedKey) -> (program: Option<&'static [u8]>)
        requires
            old(self).wf(),
        ensures
            final(self).wf(),
            final(self).entries == old(self).entries,
            if key == DecodedKey::Unicode('\n') || key == DecodedKey::Unicode('\r') {
                &&& program is Some
                &&& program->0@ == old(self).entries@[old(self).selected_idx as int].data@
                &&& final(self).lines_view() == seq![start_line(
                    old(self).entries@[old(self).selected_idx as int].name@,
                    old(self).entries@[old(self).selected_idx as int].data@.len() as int,
                )]
                &&& final(self).scroll_offset == 0
                &&& final(self).selected_idx == old(self).selected_idx
            } else if key == DecodedKey::Unicode('w') || key == DecodedKey::Unicode('W') || key == DecodedKey::RawKey(KeyCode::ArrowUp) {
                &&& program is None
                &&& final(self).selected_idx == if old(self).selected_idx > 0 { old(self).selected_idx - 1 } else { 0 }
                &&& final(self).output_lines == old(self).output_lines
                &&& final(self).scroll_offset == old(self).scroll_offset
            } else if key == DecodedKey::Unicode('s') || key == DecodedKey::Unicode('S') || key == DecodedKey::RawKey(KeyCode::ArrowDown) {
                &&& program is None
                &&& final(self).selected_idx == if old(self).selected_idx + 1 < 4 { old(self).selected_idx + 1 } else { old(self).selected_idx as int }
                &&& final(self).output_lines == old(self).output_lines
                &&& final(self).scroll_offset == old(self).scroll_offset
            } else if key == DecodedKey::Unicode('k') {
                &&& program is None
                &&& final(self).scroll_offset == if old(self).scroll_offset > 0 { old(self).scroll_offset - 1 } else { 0 }
                &&& final(self).selected_idx == old(self).selected_idx
                &&& final(self).output_lines == old(self).output_lines
            } else if key == DecodedKey::Unicode('j') {
                &&& program is None
                &&& final(self).scroll_offset == if old(self).scroll_offset + 1 < old(self).output_lines@.len() {
                    old(self).scroll_offset + 1
                } else {
                    old(self).scroll_offset as int
                }
                &&& final(self).selected_idx == old(self).selected_idx
                &&& final(self).output_lines == old(self).output_lines
            } else {
                program is None && *final(self) == *old(self)
            },
    {
        match key {
            DecodedKey::Unicode(c) => {
                if c == '\n' || c == '\r' {
                    return Some(self.run_selected());
                } else if c == 'w' || c == 'W' {
                    if self.selected_idx > 0 {
                        self.selected_idx = self.selected_idx - 1;
                    }
                } else if c == 's' || c == 'S' {
                    if self.selected_idx + 1 < self.entries.len() {
                        self.selected_idx = self.selected_idx + 1;
                    }
                } else if c == 'k' {
                    if self.scroll_offset > 0 {
                        self.scroll_offset = self.scroll_offset - 1;
                    }
                } else if c == 'j' {
                    let n = self.output_lines.len();
                    if self.scroll_offset < n && self.scroll_offset + 1 < n {
                        self.scroll_offset = self.scroll_offset + 1;
                    }
                }
            },
            DecodedKey::RawKey(code) => {
                if code == KeyCode::ArrowUp {
                    if self.selected_idx > 0 {
                        self.selected_idx = self.selected_idx - 1;
                    }
                } else if code == KeyCode::ArrowDown {
                    if self.selected_idx + 1 < self.entries.len() {
                        self.selected_idx = self.selected_idx + 1;
                    }
                }
            },
        }
        None
    }

    /// Reacts to a left click in the list (0 to 174 across): an entry (rows
    /// 46 apart from height 28, 41 high) is selected; the Run button (10 to
    /// 165 across, 210 to 270 down) starts a run.
    pub fn on_mouse_click(&mut self, local_x: isize, local_y: isize, left: bool) -> (program: Option<&'static [u8]>)
        requires
            old(self).wf(),
        ensures
            final(self).wf(),
            final(self).entries == old(self).entries,
            if left && 0 <= local_x < 175 {
                match entry_row(local_y as int) {
                    Some(i) => program is None && *final(self) == (ElfRunnerApp { selected_idx: i as usize, ..*old(self) }),
                    None => if 210 <= local_y <= 270 && 10 <= local_x <= 165 {
                        &&& program is Some
                        &&& program->0@ == old(self).entries@[old(self).selected_idx as int].data@
                        &&& final(self).lines_view() == seq![start_line(
                            old(self).entries@[old(self).selected_idx as int].name@,
                            old(self).entries@[old(self).selected_idx as int].data@.len() as int,
                        )]
                        &&& final(self).scroll_offset == 0
                        &&& final(self).selected_idx == old(self).selected_idx
                    } else {
                        program is None && *final(self) == *old(self)
                    },
                }
            } else {
                program is None && *final(self) == *old(self)
            },
    {
        if !left {
            return None;
        }
        if local_x >= 0 && local_x < 175 {
            let mut i: usize = 0;
            while i < 4
                invariant
                    i <= 4,
                    self.wf(),
                    *self == *old(self),
                    left,
                    0 <= local_x < 175,
                    i >= 1 ==> !(28 <= local_y <= 68),
                    i >= 2 ==> !(74 <= local_y <= 114),
                    i >= 3 ==> !(120 <= local_y <= 160),
                    i >= 4 ==> !(166 <= local_y <= 206),
                decreases 4 - i,
            {
                let item_y = 28 + (i as isize) * 46;
                if local_y >= item_y && local_y <= item_y + 40 {
                    proof {
                        assert(item_y == 28 + 46 * i);
                        if i == 0 {} else if i == 1 {} else if i == 2 {} else {}
                        assert(entry_row(local_y as int) == Some(i as int));
                    }
                    self.selected_idx = i;
                    return None;
                }
                i = i + 1;
            }
            if local_y >= 210 && local_y <= 270 && local_x >= 10 && local_x <= 165 {
                return Some(self.run_selected());
            }
        }
        None
    }
}


/// The color of a console line: `>>>` lines green, `===` lines blue, lines
/// with `ERROR` red, the rest light gray.
pub open spec fn console_color_spec(l: Seq<char>) -> u32 {
    if begins(l, ">>>"@) {
        pack_argb(255, 100, 220, 130)
    } else if begins(l, "==="@) {
        pack_argb(255, 100, 180, 255)
    } else if contains_run(l, "ERROR"@) {
        pack_argb(255, 255, 90, 90)
    } else {
        pack_argb(255, 220, 225, 230)
    }
}

/// Picks the color of console line `l` (see `console_color_spec`).
pub fn console_color(l: &[char]) -> (c: Color)
    ensures
        c.raw == console_color_spec(l@),
{
    let marker = chars_of(">>>");
    let rule = chars_of("===");
    let error = chars_of("ERROR");
    if starts_with_chars(l, marker.as_slice()) {
        Color::new(100, 220, 130)
    } else if starts_with_chars(l, rule.as_slice()) {
        Color::new(100, 180, 255)
    } else if contains_chars(l, error.as_slice()) {
        Color::new(255, 90, 90)
    } else {
        Color::new(220, 225, 230)
    }
}

/// A console line fitted to `max_chars` cells: a longer one is cut and
/// ends in `...` (when more than three cells fit).
pub open spec fn fitted_spec(l: Seq<char>, max_chars: int) -> Seq<char> {
    if l.len() > max_chars && max_chars > 3 { l.take(max_chars - 3) + "..."@ } else { l }
}

/// Fits `l` to `max_chars` cells (see `fitted_spec`).
pub fn fitted(l: &[char], max_chars: usize) -> (v: Vec<char>)
    ensures
        v@ == fitted_spec(l@, max_chars as int),
{
    if l.len() > max_chars && max_chars > 3 {
        let mut v = clipped(l, max_chars - 3);
        append_str(&mut v, "...");
        v
    } else {
        clipped(l, l.len())
    }
}

/// The console lines shown, from `start` up to `end`: from the scroll
/// offset (at most the last line) on, as many as `term_h` pixels hold at
/// sixteen a line.
pub fn console_window(scroll: usize, n: usize, term_h: usize) -> (r: (usize, usize))
    ensures
        r.0 == if n == 0 { 0 } else if scroll < n - 1 { scroll as int } else { n - 1 },
        r.1 == if r.0 + term_h / 16 < n { r.0 + term_h / 16 } else { n as int },
{
    let last: usize = if n >= 1 { n - 1 } else { 0 };
    let start = if scroll < last { scroll } else { last };
    let room = term_h / 16;
    let end = if room < n - start { start + room } else { n };
    (start, end)
}

/// The console width for a client area `w` wide.
pub open spec fn console_width(w: int) -> int {
    if w >= 176 { w - 176 } else { 0 }
}

impl ElfRunnerApp {
    /// Program `i` of the list at `(x, y)`: its face (blue and outlined when
    /// selected), its name and its size in bytes.
    pub open spec fn entry_shapes(&self, x: int, y: int, i: int) -> Seq<ShapeV> {
        let item_y = y + 28 + i * 46;
        let selected = i == self.selected_idx;
        let e = self.entries@[i];
        (if selected {
            seq![sfill(x + 6, item_y, 163, 40, pack_argb(255, 55, 80, 130)),
                soutline(x + 6, item_y, 163, 40, pack_argb(255, 100, 140, 220))]
        } else {
            seq![sfill(x + 6, item_y, 163, 40, pack_argb(255, 40, 44, 56))]
        }) + seq![
            stext(x + 12, item_y + 6, e.name@, if selected { pack_argb(255, 255, 255, 255) } else { pack_argb(255, 210, 215, 225) }),
            stext(x + 12, item_y + 22, decimal_digits(e.data@.len()) + " B"@, pack_argb(255, 130, 140, 160))
        ]
    }

    /// Programs `0..k` of the list.
    pub open spec fn entries_upto(&self, x: int, y: int, k: int) -> Seq<ShapeV>
        decreases k,
    {
        if k <= 0 { Seq::empty() } else { self.entries_upto(x, y, k - 1) + self.entry_shapes(x, y, k - 1) }
    }

    /// Console lines `start..k`, 16 pixels apart, colored by
    /// `console_color_spec` and fitted to the width.
    pub open spec fn console_from(&self, x: int, y: int, w: int, start: int, k: int) -> Seq<ShapeV>
        decreases k - start,
    {
        let max_chars = if console_width(w) >= 20 { (console_width(w) - 20) / 8 } else { 0 };
        if k <= start {
            Seq::empty()
        } else {
            self.console_from(x, y, w, start, k - 1) + seq![stext(x + 186, y + 35 + 16 * (k - 1 - start),
                fitted_spec(self.output_lines@[k - 1]@, max_chars), console_color_spec(self.output_lines@[k - 1]@))]
        }
    }

    /// The left panel: the backdrop, the list panel and its edge, the
    /// heading and the four programs.
    pub open spec fn list_scene(&self, x: int, y: int, w: int, h: int) -> Seq<ShapeV> {
        seq![
            sfill(x, y, w, h, pack_argb(255, 24, 26, 32)),
            sfill(x, y, 175, h, pack_argb(255, 32, 35, 44)),
            sfill(x + 175, y, 1, h, pack_argb(255, 50, 55, 68)),
            stext(x + 10, y + 8, "EXECUTABLES"@, pack_argb(255, 140, 150, 175))
        ] + self.entries_upto(x, y, 4)
    }

    /// The run button, the status bar with the selected program's
    /// description and the status, and the console's backdrop.
    pub open spec fn panel_scene(&self, x: int, y: int, w: int, h: int) -> Seq<ShapeV> {
        let btn_y = y + if h >= 45 { h - 45 } else { 0 };
        let cw = console_width(w);
        seq![
            sfill(x + 10, btn_y, 155, 32, pack_argb(255, 40, 130, 70)),
            soutline(x + 10, btn_y, 155, 32, pack_argb(255, 70, 190, 110)),
            stext(x + 38, btn_y + 8, "[ RUN ELF ]"@, pack_argb(255, 255, 255, 255)),
            sfill(x + 176, y, cw, 28, pack_argb(255, 30, 33, 42)),
            sfill(x + 176, y + 28, cw, 1, pack_argb(255, 50, 55, 68)),
            stext(x + 186, y + 8, self.entries@[self.selected_idx as int].desc@ + ": "@ + self.status_text@,
                pack_argb(255, 200, 215, 240)),
            sfill(x + 176, y + 29, cw, if h >= 29 { h - 29 } else { 0 }, pack_argb(255, 16, 18, 22))
        ]
    }

    /// What the runner shows in the client area at `(x, y)`, `w` by `h`:
    /// the program list, the run button, the status bar, and the console
    /// lines from the scroll offset that fit.
    pub open spec fn scene_spec(&self, x: int, y: int, w: int, h: int) -> Seq<ShapeV> {
        let n = self.output_lines@.len() as int;
        let term_h = if h >= 29 { h - 29 } else { 0 };
        let last = if n >= 1 { n - 1 } else { 0 };
        let start = if self.scroll_offset < last { self.scroll_offset as int } else { last };
        let end = if start + term_h / 16 < n { start + term_h / 16 } else { n };
        self.list_scene(x, y, w, h) + self.panel_scene(x, y, w, h) + self.console_from(x, y, w, start, end)
    }

    /// Adds program `i` of the list.
    fn add_entry(&self, s: &mut Vec<Shape>, x: isize, y: isize, i: usize)
        requires
            self.wf(),
            inner(x as int),
            inner(y as int),
            i < 4,
            scene_ok(shapes_view(old(s)@)),
        ensures
            shapes_view(final(s)@) == shapes_view(old(s)@) + self.entry_shapes(x as int, y as int, i as int),
            scene_ok(shapes_view(final(s)@)),
    {
        let ghost before = shapes_view(s@);
        let item_y = y + 28 + (i * 46) as isize;
        let selected = i == self.selected_idx;
        if selected {
            add_fill(s, x + 6, item_y, 163, 40, Color::new(55, 80, 130).raw);
            add_outline(s, x + 6, item_y, 163, 40, Color::new(100, 140, 220).raw);
        } else {
            add_fill(s, x + 6, item_y, 163, 40, Color::new(40, 44, 56).raw);
        }
        let ghost p1 = shapes_view(s@);
        let entry = &self.entries[i];
        let name_color = if selected { Color::new(255, 255, 255) } else { Color::new(210, 215, 225) };
        add_label(s, x + 12, item_y + 6, entry.name, name_color.raw);
        let mut size = format_u64(entry.data.len() as u64);
        append_str(&mut size, " B");
        add_text(s, x + 12, item_y + 22, size, Color::new(130, 140, 160).raw);
        assert(shapes_view(s@) =~= before + self.entry_shapes(x as int, y as int, i as int));
    }

    /// Appends `list_scene`.
    fn add_list(&self, s: &mut Vec<Shape>, x: isize, y: isize, w: usize, h: usize)
        requires
            self.wf(),
            inner(x as int),
            inner(y as int),
            w <= 0x1_0000,
            h <= 0x1_0000,
            scene_ok(shapes_view(old(s)@)),
        ensures
            shapes_view(final(s)@) == shapes_view(old(s)@) + self.list_scene(x as int, y as int, w as int, h as int),
            scene_ok(shapes_view(final(s)@)),
    {
        let ghost before = shapes_view(s@);
        add_fill(s, x, y, w, h, Color::new(24, 26, 32).raw);
        add_fill(s, x, y, 175, h, Color::new(32, 35, 44).raw);
        add_fill(s, x + 175, y, 1, h, Color::new(50, 55, 68).raw);
        add_label(s, x + 10, y + 8, "EXECUTABLES", Color::new(140, 150, 175).raw);
        let ghost head = shapes_view(s@);
        let mut i: usize = 0;
        while i < 4
            invariant
                self.wf(),
                inner(x as int),
                inner(y as int),
                i <= 4,
                shapes_view(s@) == head + self.entries_upto(x as int, y as int, i as int),
                scene_ok(shapes_view(s@)),
            decreases 4 - i,
        {
            self.add_entry(s, x, y, i);
            i = i + 1;
        }
        assert(shapes_view(s@) =~= before + self.list_scene(x as int, y as int, w as int, h as int));
    }

    /// Appends `panel_scene`.
    fn add_panel(&self, s: &mut Vec<Shape>, x: isize, y: isize, w: usize, h: usize)
        requires
            self.wf(),
            inner(x as int),
            inner(y as int),
            w <= 0x1_0000,
            h <= 0x1_0000,
            scene_ok(shapes_view(old(s)@)),
        ensures
            shapes_view(final(s)@) == shapes_view(old(s)@) + self.panel_scene(x as int, y as int, w as int, h as int),
            scene_ok(shapes_view(final(s)@)),
    {
        let ghost before = shapes_view(s@);
        let btn_y = y + (if h >= 45 { h - 45 } else { 0 }) as isize;
        add_fill(s, x + 10, btn_y, 155, 32, Color::new(40, 130, 70).raw);
        add_outline(s, x + 10, btn_y, 155, 32, Color::new(70, 190, 110).raw);
        add_label(s, x + 38, btn_y + 8, "[ RUN ELF ]", Color::new(255, 255, 255).raw);
        let console_x = x + 176;
        let console_w: usize = if w >= 176 { w - 176 } else { 0 };
        add_fill(s, console_x, y, console_w, 28, Color::new(30, 33, 42).raw);
        add_fill(s, console_x, y + 28, console_w, 1, Color::new(50, 55, 68).raw);
        let mut status = chars_of(self.entries[self.selected_idx].desc);
        append_str(&mut status, ": ");
        append_chars(&mut status, self.status_text.as_slice());
        add_text(s, console_x + 10, y + 8, status, Color::new(200, 215, 240).raw);
        let term_h: usize = if h >= 29 { h - 29 } else { 0 };
        add_fill(s, console_x, y + 29, console_w, term_h, Color::new(16, 18, 22).raw);
        assert(shapes_view(s@) =~= before + self.panel_scene(x as int, y as int, w as int, h as int));
    }

    /// Appends console lines `start..end`.
    fn add_console(&self, s: &mut Vec<Shape>, x: isize, y: isize, w: usize, start: usize, end: usize)
        requires
            self.wf(),
            inner(x as int),
            inner(y as int),
            w <= 0x1_0000,
            start <= end <= self.output_lines@.len(),
            end - start <= 0x1000,
            scene_ok(shapes_view(old(s)@)),
        ensures
            shapes_view(final(s)@) == shapes_view(old(s)@) + self.console_from(x as int, y as int, w as int, start as int, end as int),
            scene_ok(shapes_view(final(s)@)),
    {
        let ghost mid = shapes_view(s@);
        let console_x = x + 176;
        let console_w: usize = if w >= 176 { w - 176 } else { 0 };
        let max_chars: usize = if console_w >= 20 { (console_w - 20) / 8 } else { 0 };
        let mut k = start;
        while k < end
            invariant
                inner(x as int),
                inner(y as int),
                w <= 0x1_0000,
                console_x == x + 176,
                console_w as int == console_width(w as int),
                max_chars as int == (if console_width(w as int) >= 20 { (console_width(w as int) - 20) / 8 } else { 0 }),
                end <= self.output_lines@.len(),
                start <= k <= end,
                end - start <= 0x1000,
                shapes_view(s@) == mid + self.console_from(x as int, y as int, w as int, start as int, k as int),
                scene_ok(shapes_view(s@)),
            decreases end - k,
        {
            let line = &self.output_lines[k];
            let py = y + 35 + ((k - start) * 16) as isize;
            let color = console_color(line.as_slice());
            add_text(s, console_x + 10, py, fitted(line.as_slice(), max_chars), color.raw);
            k = k + 1;
            assert(shapes_view(s@) =~= mid + self.console_from(x as int, y as int, w as int, start as int, k as int));
        }
    }

    /// Builds `scene_spec`.
    pub fn scene(&self, x: isize, y: isize, w: usize, h: usize) -> (s: Vec<Shape>)
        requires
            self.wf(),
            inner(x as int),
            inner(y as int),
            w <= 0x1_0000,
            h <= 0x1_0000,
        ensures
            shapes_view(s@) == self.scene_spec(x as int, y as int, w as int, h as int),
            scene_ok(shapes_view(s@)),
    {
        let mut s: Vec<Shape> = Vec::new();
        assert(shapes_view(s@) =~= Seq::<ShapeV>::empty());
        self.add_list(&mut s, x, y, w, h);
        self.add_panel(&mut s, x, y, w, h);
        let term_h: usize = if h >= 29 { h - 29 } else { 0 };
        let (start, end) = console_window(self.scroll_offset, self.output_lines.len(), term_h);
        self.add_console(&mut s, x, y, w, start, end);
        assert(shapes_view(s@) =~= self.scene_spec(x as int, y as int, w as int, h as int));
        s
    }

    /// Draws the runner into the client area at `(x, y)`, `w` by `h`:
    /// exactly the pixels of `scene_spec`.
    pub fn render(&self, fb: &mut Framebuffer, x: isize, y: isize, w: usize, h: usize)
        requires
            old(fb).wf(),
            self.wf(),
            inner(x as int),
            inner(y as int),
            w <= 0x1_0000,
            h <= 0x1_0000,
        ensures
            drawn_over(*old(fb), *final(fb)),
            final(fb).backbuffer@ == painted(*old(fb), old(fb).backbuffer@, self.scene_spec(x as int, y as int, w as int, h as int)),
    {
        let s = self.scene(x, y, w, h);
        paint(fb, s.as_slice());
    }
}
} // verus!
