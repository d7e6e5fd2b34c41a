//! The four-function calculator: a 12-digit display, an accumulator and a
//! pending operator, driven by keys or by clicks on its 4x4 keypad.
use vstd::prelude::*;
use crate::input::{DecodedKey, KeyCode};
use crate::color::{pack_argb, Color};
use crate::framebuffer::Framebuffer;
use crate::render::{clipped, drawn_over, inner};
use crate::scene::{add_big, half, half_of, add_fill, add_outline, add_text, clip_to, paint, painted, scene_ok, sfill, shapes_view, soutline, stext, Shape, ShapeV};
use crate::text::{format_i64, format_i64_spec, parse_i64, parse_i64_spec};

verus! {

/// The keypad, row by row.
pub open spec fn button_label(row: int, col: int) -> char {
    if row == 0 { if col == 0 { '7' } else if col == 1 { '8' } else if col == 2 { '9' } else { '/' } }
    else if row == 1 { if col == 0 { '4' } else if col == 1 { '5' } else if col == 2 { '6' } else { '*' } }
    else if row == 2 { if col == 0 { '1' } else if col == 1 { '2' } else if col == 2 { '3' } else { '-' } }
    else { if col == 0 { 'C' } else if col == 1 { '0' } else if col == 2 { '=' } else { '+' } }
}

/// The keypad row under client-area height `y` (rows are 36 pixels high,
/// 8 apart, starting 64 pixels down), if any.
pub open spec fn keypad_row(y: int) -> Option<int> {
    if 64 <= y < 100 { Some(0) } else if 108 <= y < 144 { Some(1) }
    else if 152 <= y < 188 { Some(2) } else if 196 <= y < 232 { Some(3) } else { None }
}

/// The keypad column under client-area offset `x` (columns are 44 pixels
/// wide, 8 apart, starting 12 pixels in), if any.
pub open spec fn keypad_col(x: int) -> Option<int> {
    if 12 <= x < 56 { Some(0) } else if 64 <= x < 108 { Some(1) }
    else if 116 <= x < 160 { Some(2) } else if 168 <= x < 212 { Some(3) } else { None }
}

/// The keypad button under the client-area point `x`, `y`, if any.
pub open spec fn button_at(x: int, y: int) -> Option<char> {
    match (keypad_row(y), keypad_col(x)) {
        (Some(r), Some(c)) => Some(button_label(r, c)),
        _ => None,
    }
}

/// `a + b` held to the range of `i64`.
pub open spec fn saturate(v: int) -> i64 {
    if v > i64::MAX { i64::MAX } else if v < i64::MIN { i64::MIN } else { v as i64 }
}

/// `a / b` rounded toward zero (as Rust divides integers), for `b != 0`.
pub open spec fn div_toward_zero(a: int, b: int) -> int {
    if a == 0 { 0 }
    else if a > 0 && b > 0 { a / b }
    else if a < 0 && b < 0 { (-a) / (-b) }
    else if a < 0 { -((-a) / b) }
    else { -(a / (-b)) }
}

/// The result of operator `op` on the accumulator `a` and the display value
/// `b`: saturating `+`, `-`, `*`; `/` rounding toward zero, 0 when dividing
/// by zero; any other operator yields `b`.
pub open spec fn combine(op: char, a: i64, b: i64) -> i64 {
    if op == '+' { saturate(a + b) }
    else if op == '-' { saturate(a - b) }
    else if op == '*' { saturate(a * b) }
    else if op == '/' { if b != 0 { div_toward_zero(a as int, b as int) as i64 } else { 0 } }
    else { b }
}

/// Whether `combine(op, a, b)` is defined: only `i64::MIN / -1` is not.
pub open spec fn combine_defined(op: char, a: i64, b: i64) -> bool {
    !(op == '/' && a == i64::MIN && b == -1)
}

/// The number the display shows (0 when it does not read as one).
pub open spec fn display_value(display: Seq<char>) -> i64 {
    match parse_i64_spec(display) {
        Some(v) => v,
        None => 0,
    }
}

/// The display after typing `d`.
pub open spec fn display_after_digit(display: Seq<char>, clear_first: bool, d: char) -> Seq<char> {
    let base = if clear_first || display == seq!['0'] { Seq::empty() } else { display };
    if base.len() < 12 { base.push(d) } else { base }
}

/// Whether key `key` makes the calculator combine its accumulator and display.
pub open spec fn key_combines(key: DecodedKey) -> bool {
    match key {
        DecodedKey::Unicode(c) => c == '+' || c == '-' || c == '*' || c == '/' || c == '=' || c == '\n' || c == '\r',
        _ => false,
    }
}

/// The calculator's state.
pub struct CalculatorApp {
    /// What the display shows.
    pub display: Vec<char>,
    pub accumulator: i64,
    pub pending_op: Option<char>,
    /// Whether the next digit starts a new number.
    pub clear_on_next_digit: bool,
}

fn saturating_add_i64(a: i64, b: i64) -> (r: i64)
    ensures
        r == saturate(a + b),
{
    match a.checked_add(b) {
        Some(v) => v,
        None => if b > 0 { i64::MAX } else { i64::MIN },
    }
}

fn saturating_sub_i64(a: i64, b: i64) -> (r: i64)
    ensures
        r == saturate(a - b),
{
    match a.checked_sub(b) {
        Some(v) => v,
        None => if b < 0 { i64::MAX } else { i64::MIN },
    }
}

fn saturating_mul_i64(a: i64, b: i64) -> (r: i64)
    ensures
        r == saturate(a * b),
{
    match a.checked_mul(b) {
        Some(v) => v,
        None => {
            if (a > 0) == (b > 0) {
                assert(a * b > i64::MAX) by (nonlinear_arith)
                    requires a * b > i64::MAX || a * b < i64::MIN, (a > 0) == (b > 0);
                i64::MAX
            } else {
                assert(a * b < i64::MIN) by (nonlinear_arith)
                    requires a * b > i64::MAX || a * b < i64::MIN, (a > 0) != (b > 0);
                i64::MIN
            }
        },
    }
}


/// `a / b` as Rust divides integers, rounding toward zero.
pub(crate) fn div_trunc(a: i64, b: i64) -> (q: i64)
    requires
        b != 0,
        !(a == i64::MIN && b == -1),
    ensures
        q == div_toward_zero(a as int, b as int),
{
    match a.checked_div(b) {
        Some(q) => q,
        None => {
            assert(div_toward_zero(a as int, b as int) > i64::MAX || div_toward_zero(a as int, b as int) < i64::MIN);
            assert(false) by {
                if a < 0 && b < 0 {
                    assert((-a) / (-b) <= -(i64::MIN as int)) by (nonlinear_arith)
                        requires -a <= -(i64::MIN as int), -b >= 1;
                    if b < -1 {
                        assert((-a) / (-b) <= i64::MAX) by (nonlinear_arith)
                            requires -a <= -(i64::MIN as int), -b >= 2;
                    }
                } else if a < 0 {
                    assert((-a) / (b as int) <= -(i64::MIN as int)) by (nonlinear_arith)
                        requires -a <= -(i64::MIN as int), b >= 1;
                } else if a > 0 && b > 0 {
                    assert((a as int) / (b as int) <= a) by (nonlinear_arith)
                        requires a > 0, b >= 1;
                } else if a > 0 {
                    assert((a as int) / (-(b as int)) <= a) by (nonlinear_arith)
                        requires a > 0, -b >= 1;
                }
            }
            0
        },
    }
}

fn combine_exec(op: char, a: i64, b: i64) -> (r: i64)
    requires
        combine_defined(op, a, b),
    ensures
        r == combine(op, a, b),
{
    if op == '+' {
        saturating_add_i64(a, b)
    } else if op == '-' {
        saturating_sub_i64(a, b)
    } else if op == '*' {
        saturating_mul_i64(a, b)
    } else if op == '/' {
        if b != 0 {
            div_trunc(a, b)
        } else {
            0
        }
    } else {
        b
    }
}

impl CalculatorApp {
    /// The value the display shows.
    pub open spec fn current(&self) -> i64 {
        display_value(self.display@)
    }

    /// Whether the pending operator can be applied to the accumulator and display.
    pub open spec fn can_combine(&self) -> bool {
        match self.pending_op {
            Some(op) => combine_defined(op, self.accumulator, self.current()),
            None => true,
        }
    }

    /// A cleared calculator showing `0`.
    pub fn new() -> (app: CalculatorApp)
        ensures
            app.display@ == seq!['0'],
            app.accumulator == 0,
            app.pending_op.is_none(),
            !app.clear_on_next_digit,
    {
        let mut display = Vec::new();
        display.push('0');
        CalculatorApp { display, accumulator: 0, pending_op: None, clear_on_next_digit: false }
    }

    /// The window title.
    pub fn title(&self) -> (t: &'static str)
        ensures
            t@ == "Calculator"@,
    {
        "Calculator"
    }

    /// Types digit `digit`: a pending clear or a lone `0` is replaced; at
    /// most 12 characters are kept.
    pub fn push_digit(&mut self, digit: char)
        ensures
            final(self).display@ == display_after_digit(old(self).display@, old(self).clear_on_next_digit, digit),
            !final(self).clear_on_next_digit,
            final(self).accumulator == old(self).accumulator,
            final(self).pending_op == old(self).pending_op,
    {
        let is_zero = self.display.len() == 1 && self.display[0] == '0';
        proof {
            assert(is_zero == (self.display@ == seq!['0'])) by {
                if self.display@ == seq!['0'] {
                    assert(self.display@[0] == '0');
                }
                if is_zero {
                    assert(self.display@ =~= seq!['0']);
                }
            }
        }
        if self.clear_on_next_digit || is_zero {
            self.display.clear();
            self.clear_on_next_digit = false;
        }
        if self.display.len() < 12 {
            self.display.push(digit);
        }
    }

    /// Applies the pending operator (or takes the display as the accumulator
    /// when none is pending), makes `op` pending and shows the accumulator.
    pub fn apply_op(&mut self, op: char)
        requires
            old(self).can_combine(),
        ensures
            final(self).accumulator == match old(self).pending_op {
                Some(p) => combine(p, old(self).accumulator, old(self).current()),
                None => old(self).current(),
            },
            final(self).pending_op == Some(op),
            final(self).clear_on_next_digit,
            final(self).display@ == format_i64_spec(final(self).accumulator),
    {
        let current_val = match parse_i64(self.display.as_slice()) {
            Some(v) => v,
            None => 0,
        };
        match self.pending_op {
            Some(pending) => {
                self.accumulator = combine_exec(pending, self.accumulator, current_val);
            },
            None => {
                self.accumulator = current_val;
            },
        }
        self.pending_op = Some(op);
        self.clear_on_next_digit = true;
        self.display = format_i64(self.accumulator);
    }

    /// With an operator pending: applies it, shows and keeps the result, and
    /// clears the pending operator. Otherwise nothing changes.
    pub fn calculate_equals(&mut self)
        requires
            old(self).can_combine(),
        ensures
            match old(self).pending_op {
                Some(p) => {
                    let res = combine(p, old(self).accumulator, old(self).current());
                    &&& final(self).accumulator == res
                    &&& final(self).display@ == format_i64_spec(res)
                    &&& final(self).pending_op.is_none()
                    &&& final(self).clear_on_next_digit
                },
                None => {
                    &&& final(self).accumulator == old(self).accumulator
                    &&& final(self).display@ == old(self).display@
                    &&& final(self).pending_op.is_none()
                    &&& final(self).clear_on_next_digit == old(self).clear_on_next_digit
                },
            },
    {
        let current_val = match parse_i64(self.display.as_slice()) {
            Some(v) => v,
            None => 0,
        };
        if let Some(op) = self.pending_op {
            let res = combine_exec(op, self.accumulator, current_val);
            self.display = format_i64(res);
            self.accumulator = res;
            self.pending_op = None;
            self.clear_on_next_digit = true;
        }
    }

    /// Back to the start state.
    pub fn clear(&mut self)
        ensures
            final(self).display@ == seq!['0'],
            final(self).accumulator == 0,
            final(self).pending_op.is_none(),
            !final(self).clear_on_next_digit,
    {
        let mut display = Vec::new();
        display.push('0');
        self.display = display;
        self.accumulator = 0;
        self.pending_op = None;
        self.clear_on_next_digit = false;
    }

    /// Acts on a keypad label: digits are typed, operators applied, `=`
    /// computes and `C` clears; anything else is ignored.
    fn handle_action(&mut self, action: char)
        requires
            (action == '+' || action == '-' || action == '*' || action == '/' || action == '=') ==> old(self).can_combine(),
            action != '\n' && action != '\r' && action != 'c',
        ensures
            final(self).action_result(*old(self), action),
    {
        if action >= '0' && action <= '9' {
            self.push_digit(action);
        } else if action == '+' || action == '-' || action == '*' || action == '/' {
            self.apply_op(action);
        } else if action == '=' {
            self.calculate_equals();
        } else if action == 'C' {
            self.clear();
        }
    }

    /// Whether this state is what acting on `action` (a keypad label, or a
    /// typed character) makes of `prev`.
    pub open spec fn action_result(&self, prev: CalculatorApp, action: char) -> bool {
        if '0' <= action <= '9' {
            &&& self.display@ == display_after_digit(prev.display@, prev.clear_on_next_digit, action)
            &&& !self.clear_on_next_digit
            &&& self.accumulator == prev.accumulator
            &&& self.pending_op == prev.pending_op
        } else if action == '+' || action == '-' || action == '*' || action == '/' {
            &&& self.accumulator == match prev.pending_op {
                Some(p) => combine(p, prev.accumulator, prev.current()),
                None => prev.current(),
            }
            &&& self.pending_op == Some(action)
            &&& self.clear_on_next_digit
            &&& self.display@ == format_i64_spec(self.accumulator)
        } else if action == '=' || action == '\n' || action == '\r' {
            match prev.pending_op {
                Some(p) => {
                    let res = combine(p, prev.accumulator, prev.current());
                    &&& self.accumulator == res
                    &&& self.display@ == format_i64_spec(res)
                    &&& self.pending_op.is_none()
                    &&& self.clear_on_next_digit
                },
                None => {
                    &&& self.accumulator == prev.accumulator
                    &&& self.display@ == prev.display@
                    &&& self.pending_op.is_none()
                    &&& self.clear_on_next_digit == prev.clear_on_next_digit
                },
            }
        } else if action == 'C' || action == 'c' {
            &&& self.display@ == seq!['0']
            &&& self.accumulator == 0
            &&& self.pending_op.is_none()
            &&& !self.clear_on_next_digit
        } else {
            &&& self.display@ == prev.display@
            &&& self.accumulator == prev.accumulator
            &&& self.pending_op == prev.pending_op
            &&& self.clear_on_next_digit == prev.clear_on_next_digit
        }
    }

    /// Reacts to a key: digits, `+ - * /`, `=` or Enter, `c`/`C`, and
    /// Backspace (which drops the last character, or shows `0` when at most
    /// one is left).
    pub fn on_key(&mut self, key: DecodedKey)
        requires
            key_combines(key) ==> old(self).can_combine(),
        ensures
            match key {
                DecodedKey::Unicode(c) => final(self).action_result(*old(self), c),
                DecodedKey::RawKey(KeyCode::Backspace) => {
                    &&& final(self).display@ == if old(self).display@.len() > 1 {
                        old(self).display@.drop_last()
                    } else {
                        seq!['0']
                    }
                    &&& final(self).accumulator == old(self).accumulator
                    &&& final(self).pending_op == old(self).pending_op
                    &&& final(self).clear_on_next_digit == old(self).clear_on_next_digit
                },
                DecodedKey::RawKey(_) => {
                    &&& final(self).display@ == old(self).display@
                    &&& final(self).accumulator == old(self).accumulator
                    &&& final(self).pending_op == old(self).pending_op
                    &&& final(self).clear_on_next_digit == old(self).clear_on_next_digit
                },
            },
    {
        match key {
            DecodedKey::Unicode(c) => {
                if c >= '0' && c <= '9' {
                    self.push_digit(c);
                } else if c == '+' || c == '-' || c == '*' || c == '/' {
                    self.apply_op(c);
                } else if c == '=' || c == '\n' || c == '\r' {
                    self.calculate_equals();
                } else if c == 'c' || c == 'C' {
                    self.clear();
                }
            },
            DecodedKey::RawKey(KeyCode::Backspace) => {
                if self.display.len() > 1 {
                    self.display.pop();
                } else {
                    let mut display = Vec::new();
                    display.push('0');
                    self.display = display;
                }
            },
            DecodedKey::RawKey(_) => {},
        }
    }

    /// Reacts to a left click at `local_x`, `local_y` in the client area: a
    /// click on a keypad button acts on its label; anything else is ignored.
    pub fn on_mouse_click(&mut self, local_x: isize, local_y: isize, left: bool)
        requires
            left ==> match button_at(local_x as int, local_y as int) {
                Some(b) => (b == '+' || b == '-' || b == '*' || b == '/' || b == '=') ==> old(self).can_combine(),
                None => true,
            },
        ensures
            match (left, button_at(local_x as int, local_y as int)) {
                (true, Some(b)) => final(self).action_result(*old(self), b),
                _ => final(self).action_result(*old(self), ' '),
            },
    {
        if !left {
            return;
        }
        let row: usize = if local_y >= 64 && local_y < 100 { 0 } else if local_y >= 108 && local_y < 144 { 1 }
            else if local_y >= 152 && local_y < 188 { 2 } else if local_y >= 196 && local_y < 232 { 3 } else { 4 };
        let col: usize = if local_x >= 12 && local_x < 56 { 0 } else if local_x >= 64 && local_x < 108 { 1 }
            else if local_x >= 116 && local_x < 160 { 2 } else if local_x >= 168 && local_x < 212 { 3 } else { 4 };
        if row < 4 && col < 4 {
            let label = button_label_exec(row, col);
            self.handle_action(label);
        }
    }
}

fn button_label_exec(row: usize, col: usize) -> (c: char)
    requires
        row < 4,
        col < 4,
    ensures
        c == button_label(row as int, col as int),
{
    let rows: [[char; 4]; 4] = [['7', '8', '9', '/'], ['4', '5', '6', '*'], ['1', '2', '3', '-'], ['C', '0', '=', '+']];
    let c = rows[row][col];
    c
}


/// The face color of keypad button `c`: clear red, operators orange,
/// digits slate.
pub open spec fn button_color_spec(c: char) -> u32 {
    if c == 'C' {
        pack_argb(255, 220, 38, 38)
    } else if c == '+' || c == '-' || c == '*' || c == '/' || c == '=' {
        pack_argb(255, 234, 88, 12)
    } else {
        pack_argb(255, 51, 65, 85)
    }
}

/// Picks the face color of keypad button `c` (see `button_color_spec`).
pub fn button_color(c: char) -> (k: Color)
    ensures
        k.raw == button_color_spec(c),
{
    if c == 'C' {
        Color::from_rgb(220, 38, 38)
    } else if c == '+' || c == '-' || c == '*' || c == '/' || c == '=' {
        Color::from_rgb(234, 88, 12)
    } else {
        Color::from_rgb(51, 65, 85)
    }
}

/// The width of the display for a client area `cw` wide.
pub open spec fn display_width(cw: int) -> int {
    if cw >= 24 { cw - 24 } else { 0 }
}

/// A keypad button's width and height for a client area `cw` by `ch`.
pub open spec fn key_size(cw: int, ch: int) -> (int, int) {
    let dw = display_width(cw);
    let avail_h = if ch >= 76 { ch - 76 } else { 0 };
    (if dw >= 24 { (dw - 24) / 4 } else { 0 }, if avail_h >= 24 { (avail_h - 24) / 4 } else { 0 })
}

/// Keypad button `k` (row by row) of the keypad at `(cx, cy)`: its face in
/// `button_color_spec`, its slate outline, and its label centred in white.
pub open spec fn key_shapes(cx: int, cy: int, cw: int, ch: int, k: int) -> Seq<ShapeV> {
    let (bw, bh) = key_size(cw, ch);
    let row = k / 4;
    let col = k % 4;
    let bx = cx + 12 + col * (bw + 8);
    let by = cy + 64 + row * (bh + 8);
    let c = button_label(row, col);
    seq![
        sfill(bx, by, bw, bh, button_color_spec(c)),
        soutline(bx, by, bw, bh, pack_argb(255, 100, 116, 139)),
        stext(bx + half(bw - 8), by + half(bh - 8), seq![c], pack_argb(255, 255, 255, 255))
    ]
}

/// Keypad buttons `0..k`.
pub open spec fn keys_upto(cx: int, cy: int, cw: int, ch: int, k: int) -> Seq<ShapeV>
    decreases k,
{
    if k <= 0 { Seq::empty() } else { keys_upto(cx, cy, cw, ch, k - 1) + key_shapes(cx, cy, cw, ch, k - 1) }
}

/// The display's number: double-size green characters right-aligned with
/// 12 pixels to spare, but at least 8 pixels in.
pub open spec fn display_digits(cx: int, cy: int, cw: int, display: Seq<char>) -> ShapeV {
    let digits = clip_to(display, 0x1000);
    let right = cx + 12 + display_width(cw) - 12 - digits.len() * 16;
    let text_x = if right > cx + 20 { right } else { cx + 20 };
    ShapeV::Big { x: text_x, y: cy + 24, text: digits, scale: 2, color: pack_argb(255, 52, 211, 153) }
}

impl CalculatorApp {
    /// What the calculator shows in the client area at `(cx, cy)`, `cw` by
    /// `ch`: the casing, the framed display with the number, and the 4x4
    /// keypad filling the rest.
    pub open spec fn scene_spec(&self, cx: int, cy: int, cw: int, ch: int) -> Seq<ShapeV> {
        let dw = display_width(cw);
        seq![
            sfill(cx, cy, cw, ch, pack_argb(255, 30, 36, 48)),
            sfill(cx + 12, cy + 12, dw, 40, pack_argb(255, 15, 23, 42)),
            soutline(cx + 12, cy + 12, dw, 40, pack_argb(255, 71, 85, 105)),
        display_digits(cx, cy, cw, self.display@)
        ] + keys_upto(cx, cy, cw, ch, 16)
    }

    /// Builds `scene_spec`.
    pub fn scene(&self, cx: isize, cy: isize, cw: usize, ch: usize) -> (s: Vec<Shape>)
        requires
            inner(cx as int),
            inner(cy as int),
            cw <= 0x1_0000,
            ch <= 0x1_0000,
        ensures
            shapes_view(s@) == self.scene_spec(cx as int, cy as int, cw as int, ch as int),
            scene_ok(shapes_view(s@)),
    {
        let mut s: Vec<Shape> = Vec::new();
        assert(shapes_view(s@) =~= Seq::<ShapeV>::empty());
        add_fill(&mut s, cx, cy, cw, ch, Color::from_rgb(30, 36, 48).raw);
        let dw: usize = if cw >= 24 { cw - 24 } else { 0 };
        let disp_x = cx + 12;
        let disp_y = cy + 12;
        add_fill(&mut s, disp_x, disp_y, dw, 40, Color::from_rgb(15, 23, 42).raw);
        add_outline(&mut s, disp_x, disp_y, dw, 40, Color::from_rgb(71, 85, 105).raw);
        let digits = clipped(self.display.as_slice(), 0x1000);
        let tw = (digits.len() * 16) as isize;
        let right = disp_x + dw as isize - 12 - tw;
        let text_x = if right > disp_x + 8 { right } else { disp_x + 8 };
        add_big(&mut s, text_x, cy + 24, digits, 2, Color::from_rgb(52, 211, 153).raw);
        let ghost mid = shapes_view(s@);
        let avail_h: usize = if ch >= 76 { ch - 76 } else { 0 };
        let btn_w: usize = if dw >= 24 { (dw - 24) / 4 } else { 0 };
        let btn_h: usize = if avail_h >= 24 { (avail_h - 24) / 4 } else { 0 };
        let mut k: usize = 0;
        while k < 16
            invariant
                inner(cx as int),
                inner(cy as int),
                cw <= 0x1_0000,
                ch <= 0x1_0000,
                (btn_w as int, btn_h as int) == key_size(cw as int, ch as int),
                btn_w <= 0x4000,
                btn_h <= 0x4000,
                k <= 16,
                shapes_view(s@) == mid + keys_upto(cx as int, cy as int, cw as int, ch as int, k as int),
                scene_ok(shapes_view(s@)),
            decreases 16 - k,
        {
            let row = k / 4;
            let col = k % 4;
            assert(col * (btn_w + 8) <= 4 * 0x4008 && row * (btn_h + 8) <= 4 * 0x4008) by (nonlinear_arith)
                requires col < 4, row < 4, btn_w <= 0x4000, btn_h <= 0x4000;
            let bx = cx + 12 + (col * (btn_w + 8)) as isize;
            let by = cy + 64 + (row * (btn_h + 8)) as isize;
            let c = button_label_exec(row, col);
            let ghost before = shapes_view(s@);
            add_fill(&mut s, bx, by, btn_w, btn_h, button_color(c).raw);
            add_outline(&mut s, bx, by, btn_w, btn_h, Color::from_rgb(100, 116, 139).raw);
            let lx = bx + half_of(btn_w as isize - 8);
            let ly = by + half_of(btn_h as isize - 8);
            let mut label_chars: Vec<char> = Vec::new();
            label_chars.push(c);
            assert(label_chars@ =~= seq![c]);
            add_text(&mut s, lx, ly, label_chars, Color::from_rgb(255, 255, 255).raw);
            proof {
                let ks = key_shapes(cx as int, cy as int, cw as int, ch as int, k as int);
                assert(row as int == (k as int) / 4 && col as int == (k as int) % 4);
                assert(ks[0] == sfill(bx as int, by as int, btn_w as int, btn_h as int, button_color_spec(c)));
                assert(ks[1] == soutline(bx as int, by as int, btn_w as int, btn_h as int, pack_argb(255, 100, 116, 139)));
                assert(ks[2] == stext(lx as int, ly as int, seq![c], pack_argb(255, 255, 255, 255)));
                assert(ks.len() == 3);
            }
            assert(shapes_view(s@) =~= before + key_shapes(cx as int, cy as int, cw as int, ch as int, k as int));
            k = k + 1;
        }
        assert(shapes_view(s@) =~= self.scene_spec(cx as int, cy as int, cw as int, ch as int));
        s
    }

    /// Draws the calculator into the client area at `(cx, cy)`, `cw` by
    /// `ch`: exactly the pixels of `scene_spec`.
    pub fn render(&self, fb: &mut Framebuffer, cx: isize, cy: isize, cw: usize, ch: usize)
        requires
            old(fb).wf(),
            inner(cx as int),
            inner(cy as int),
            cw <= 0x1_0000,
            ch <= 0x1_0000,
        ensures
            drawn_over(*old(fb), *final(fb)),
            final(fb).backbuffer@ == painted(*old(fb), old(fb).backbuffer@, self.scene_spec(cx as int, cy as int, cw as int, ch as int)),
    {
        let s = self.scene(cx, cy, cw, ch);
        paint(fb, s.as_slice());
    }
}
} // verus!
